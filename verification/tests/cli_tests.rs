use soonscan::cli::{plan_cli, select_rpc_url, status_report, CliPlan};
use soonscan::json::JsonValue;
use soonscan::model::GatewayError;

fn args_of(parts: &[&str]) -> Vec<String> {
    parts.iter().map(|s| s.to_string()).collect()
}

fn status_envelope(first: JsonValue) -> JsonValue {
    JsonValue::Obj(vec![(
        "result".to_string(),
        JsonValue::Obj(vec![("value".to_string(), JsonValue::Arr(vec![first]))]),
    )])
}

#[test]
fn no_arguments_runs_dashboard() {
    assert_eq!(plan_cli(&args_of(&["prog"])), CliPlan::Dashboard);
}

#[test]
fn bare_flag_is_usage_error() {
    assert_eq!(plan_cli(&args_of(&["prog", "-D"])), CliPlan::UsageDashboard);
    assert_eq!(plan_cli(&args_of(&["prog", "-T"])), CliPlan::UsageDashboard);
    assert_eq!(plan_cli(&args_of(&["prog", "-M"])), CliPlan::UsageDashboard);
}

#[test]
fn single_signature_checks_on_mainnet() {
    match plan_cli(&args_of(&["prog", "somesignature"])) {
        CliPlan::Check { rpc_url, signature } => {
            assert_eq!(rpc_url, "https://api.mainnet-beta.solana.com");
            assert_eq!(signature, "somesignature");
        }
        other => panic!("expected Check, got {:?}", other),
    }
}

#[test]
fn flag_and_signature_check_on_selected_network() {
    match plan_cli(&args_of(&["prog", "-T", "sig"])) {
        CliPlan::Check { rpc_url, signature } => {
            assert_eq!(rpc_url, "https://rpc.testnet.soo.network/rpc");
            assert_eq!(signature, "sig");
        }
        other => panic!("expected Check, got {:?}", other),
    }
}

#[test]
fn too_many_arguments_is_usage_error() {
    assert_eq!(plan_cli(&args_of(&["prog", "-D", "sig", "extra"])), CliPlan::UsageDashboard);
}

#[test]
fn flag_urls() {
    assert_eq!(select_rpc_url(&"-D".to_string()), "https://rpc.devnet.soo.network/rpc");
    assert_eq!(select_rpc_url(&"-T".to_string()), "https://rpc.testnet.soo.network/rpc");
    assert_eq!(select_rpc_url(&"-M".to_string()), "https://api.mainnet-beta.solana.com");
    assert_eq!(select_rpc_url(&"-X".to_string()), "https://api.mainnet-beta.solana.com");
}

#[test]
fn report_on_transport_failure() {
    let (lines, success) = status_report(&Err(GatewayError::Transport));
    assert!(!success);
    assert_eq!(lines, vec!["Error fetching transaction status"]);
}

#[test]
fn report_when_transaction_missing() {
    let (lines, success) = status_report(&Ok(status_envelope(JsonValue::Null)));
    assert!(success);
    assert_eq!(lines, vec!["Transaction not found or does not exist"]);
}

#[test]
fn report_when_no_status_information() {
    let resp = JsonValue::Obj(vec![("result".to_string(), JsonValue::Null)]);
    let (lines, success) = status_report(&Ok(resp));
    assert!(success);
    assert_eq!(lines, vec!["No status information available"]);
}

#[test]
fn report_details_for_successful_transaction() {
    let entry = JsonValue::Obj(vec![
        ("slot".to_string(), JsonValue::Int(123456)),
        ("confirmations".to_string(), JsonValue::Int(32)),
        ("confirmationStatus".to_string(), JsonValue::Str("finalized".to_string())),
        ("err".to_string(), JsonValue::Null),
    ]);
    let (lines, success) = status_report(&Ok(status_envelope(entry)));
    assert!(success);
    assert_eq!(
        lines,
        vec![
            "Transaction Status Details:",
            "Slot: 123456",
            "Confirmations: 32",
            "Confirmation Status: finalized",
            "Transaction Status: Successful",
        ]
    );
}

#[test]
fn report_details_for_failed_transaction() {
    let entry = JsonValue::Obj(vec![
        ("slot".to_string(), JsonValue::Int(5)),
        ("err".to_string(), JsonValue::Str("Custom(3)".to_string())),
    ]);
    let (lines, success) = status_report(&Ok(status_envelope(entry)));
    assert!(success);
    assert_eq!(
        lines,
        vec![
            "Transaction Status Details:",
            "Slot: 5",
            "Confirmations: N/A",
            "Confirmation Status: Unknown",
            "Transaction Status: Failed",
        ]
    );
}
