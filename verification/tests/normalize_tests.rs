use soonscan::json::JsonValue;
use soonscan::model::{DisplayModel, MethodKind};
use soonscan::normalize::{
    normalize, normalize_account, normalize_signatures, normalize_transaction,
    number_from_response, supply_from_response,
};

fn obj(pairs: Vec<(&str, JsonValue)>) -> JsonValue {
    JsonValue::Obj(pairs.into_iter().map(|(k, v)| (k.to_string(), v)).collect())
}

fn text(x: &str) -> JsonValue {
    JsonValue::Str(x.to_string())
}

fn num(x: i64) -> JsonValue {
    JsonValue::Int(x as i128)
}

fn envelope(result: JsonValue) -> JsonValue {
    obj(vec![("jsonrpc", text("2.0")), ("id", num(1)), ("result", result)])
}

fn account_value(lamports: i64, owner: &str, executable: bool, space: i64) -> JsonValue {
    obj(vec![
        ("lamports", num(lamports)),
        ("owner", text(owner)),
        ("executable", JsonValue::Bool(executable)),
        ("space", num(space)),
    ])
}

#[test]
fn account_found() {
    let resp = envelope(obj(vec![
        ("context", obj(vec![("slot", num(5))])),
        ("value", account_value(1_500_000_000, "OwnerProgram", false, 200)),
    ]));
    let m = normalize_account(&resp);
    match m {
        DisplayModel::AccountInfo {
            balance_units,
            owner,
            executable,
            data_size,
            recent_signatures,
        } => {
            assert_eq!(balance_units, 1_500_000_000);
            assert_eq!(owner, "OwnerProgram");
            assert!(!executable);
            assert_eq!(data_size, 200);
            assert!(recent_signatures.is_empty());
        }
        other => panic!("expected AccountInfo, got {:?}", other),
    }
}

#[test]
fn account_null_value_is_not_found() {
    let resp = envelope(obj(vec![("context", obj(vec![])), ("value", JsonValue::Null)]));
    assert_eq!(normalize_account(&resp), DisplayModel::NotFound);
}

#[test]
fn account_null_result_is_not_found() {
    let resp = envelope(JsonValue::Null);
    assert_eq!(normalize_account(&resp), DisplayModel::NotFound);
}

#[test]
fn account_error_envelope_is_not_found() {
    let resp = obj(vec![
        ("jsonrpc", text("2.0")),
        ("error", obj(vec![("code", num(-32602)), ("message", text("Invalid param"))])),
    ]);
    assert_eq!(normalize_account(&resp), DisplayModel::NotFound);
}

#[test]
fn account_odd_shapes_are_unsupported() {
    // A result without a value member.
    let no_value = envelope(obj(vec![("context", obj(vec![]))]));
    assert_eq!(normalize_account(&no_value), DisplayModel::Unsupported);
    // A value that is not an object.
    let bad_value = envelope(obj(vec![("value", num(3))]));
    assert_eq!(normalize_account(&bad_value), DisplayModel::Unsupported);
}

#[test]
fn account_missing_fields_degrade_to_defaults() {
    let resp = envelope(obj(vec![("value", obj(vec![("owner", num(7))]))]));
    match normalize_account(&resp) {
        DisplayModel::AccountInfo { balance_units, owner, executable, data_size, .. } => {
            assert_eq!(balance_units, 0);
            assert_eq!(owner, "");
            assert!(!executable);
            assert_eq!(data_size, 0);
        }
        other => panic!("expected AccountInfo, got {:?}", other),
    }
}

#[test]
fn signatures_entries_and_defaults() {
    let resp = envelope(JsonValue::Arr(vec![
        obj(vec![
            ("signature", text("sigtext")),
            ("slot", num(42)),
            ("blockTime", num(1700000000)),
            ("confirmationStatus", text("finalized")),
        ]),
        obj(vec![("slot", text("not a number"))]),
    ]));
    let entries = normalize_signatures(&resp).expect("usable history");
    assert_eq!(entries.len(), 2);
    assert_eq!(entries[0].signature, "sigtext");
    assert_eq!(entries[0].slot, 42);
    assert_eq!(entries[0].block_time, Some(1700000000));
    assert_eq!(entries[0].confirmation_status, "finalized");
    assert_eq!(entries[1].signature, "N/A");
    assert_eq!(entries[1].slot, 0);
    assert_eq!(entries[1].block_time, None);
    assert_eq!(entries[1].confirmation_status, "Unknown");
}

#[test]
fn signatures_unusable_responses() {
    assert_eq!(normalize_signatures(&envelope(JsonValue::Null)), None);
    assert_eq!(normalize_signatures(&envelope(num(4))), None);
}

#[test]
fn transaction_success() {
    let resp = envelope(obj(vec![
        ("slot", num(123456)),
        ("blockTime", num(0)),
        (
            "meta",
            obj(vec![
                ("fee", num(5000)),
                ("err", JsonValue::Null),
                ("computeUnitsConsumed", num(777)),
                ("preBalances", JsonValue::Arr(vec![num(10), num(20)])),
                ("postBalances", JsonValue::Arr(vec![num(5), num(25), num(99)])),
            ]),
        ),
    ]));
    match normalize_transaction(&resp) {
        DisplayModel::TransactionInfo {
            slot,
            block_time,
            fee_units,
            succeeded,
            error,
            compute_units,
            balance_deltas,
        } => {
            assert_eq!(slot, 123456);
            assert_eq!(block_time, Some(0));
            assert_eq!(fee_units, 5000);
            assert!(succeeded);
            assert_eq!(error, None);
            assert_eq!(compute_units, Some(777));
            assert_eq!(balance_deltas, vec![(10, 5), (20, 25)]);
        }
        other => panic!("expected TransactionInfo, got {:?}", other),
    }
}

#[test]
fn transaction_missing_subfields_do_not_discard() {
    let resp = envelope(obj(vec![("slot", num(9))]));
    match normalize_transaction(&resp) {
        DisplayModel::TransactionInfo {
            slot,
            block_time,
            fee_units,
            succeeded,
            compute_units,
            balance_deltas,
            ..
        } => {
            assert_eq!(slot, 9);
            assert_eq!(block_time, None);
            assert_eq!(fee_units, 0);
            assert!(succeeded);
            assert_eq!(compute_units, None);
            assert!(balance_deltas.is_empty());
        }
        other => panic!("expected TransactionInfo, got {:?}", other),
    }
}

#[test]
fn transaction_failure_with_error_text() {
    let resp = envelope(obj(vec![
        ("slot", num(1)),
        ("meta", obj(vec![("err", text("InstructionError"))])),
    ]));
    match normalize_transaction(&resp) {
        DisplayModel::TransactionInfo { succeeded, error, .. } => {
            assert!(!succeeded);
            assert_eq!(error, Some("InstructionError".to_string()));
        }
        other => panic!("expected TransactionInfo, got {:?}", other),
    }
}

#[test]
fn transaction_not_found_and_unsupported() {
    assert_eq!(normalize_transaction(&envelope(JsonValue::Null)), DisplayModel::NotFound);
    assert_eq!(normalize_transaction(&envelope(num(3))), DisplayModel::Unsupported);
}

#[test]
fn number_responses() {
    assert_eq!(number_from_response(&envelope(num(31415))), Some(31415));
    assert_eq!(number_from_response(&envelope(text("x"))), None);
    assert_eq!(number_from_response(&envelope(JsonValue::Null)), None);
}

#[test]
fn supply_response() {
    let resp = envelope(obj(vec![(
        "value",
        obj(vec![("total", num(1000)), ("circulating", num(400))]),
    )]));
    assert_eq!(supply_from_response(&resp), (Some(1000), Some(400)));
    let partial = envelope(obj(vec![("value", obj(vec![("total", num(1000))]))]));
    assert_eq!(supply_from_response(&partial), (Some(1000), None));
}

#[test]
fn dispatch_by_method() {
    let slot_resp = envelope(num(88));
    match normalize(MethodKind::GetSlot, &slot_resp) {
        DisplayModel::Dashboard(d) => {
            assert_eq!(d.slot, Some(88));
            assert_eq!(d.total_supply, None);
            assert_eq!(d.transaction_count, None);
        }
        other => panic!("expected Dashboard, got {:?}", other),
    }
    match normalize(MethodKind::GetTransactionCount, &envelope(num(5))) {
        DisplayModel::Dashboard(d) => assert_eq!(d.transaction_count, Some(5)),
        other => panic!("expected Dashboard, got {:?}", other),
    }
    assert_eq!(
        normalize(MethodKind::GetSignaturesForAddress, &envelope(JsonValue::Arr(vec![]))),
        DisplayModel::Unsupported
    );
}
