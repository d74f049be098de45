use soonscan::json::JsonValue;
use soonscan::model::{DashboardModel, DisplayModel};
use soonscan::normalize::normalize_account;
use soonscan::orchestrate::{account_stage1, plan_fetch, AccountStage, QueryPlan};
use soonscan::render::{centered_rect, render};
use soonscan::state::App;

/// A well-formed 44-character address for end-to-end scenarios:
/// 32 bytes of 0xfe always encode to 44 base58 characters.
fn well_formed_address() -> String {
    let alphabet: &[u8] = b"123456789ABCDEFGHJKLMNPQRSTUVWXYZabcdefghijkmnopqrstuvwxyz";
    let mut digits: Vec<u8> = Vec::new();
    for _ in 0..32 {
        let mut carry: u32 = 0xfe;
        for d in digits.iter_mut() {
            let t = (*d as u32) * 256 + carry;
            *d = (t % 58) as u8;
            carry = t / 58;
        }
        while carry > 0 {
            digits.push((carry % 58) as u8);
            carry /= 58;
        }
    }
    digits.iter().rev().map(|&d| alphabet[d as usize] as char).collect()
}

fn obj3(pairs: Vec<(&str, JsonValue)>) -> JsonValue {
    JsonValue::Obj(pairs.into_iter().map(|(k, v)| (k.to_string(), v)).collect())
}

fn num3(x: i64) -> JsonValue {
    JsonValue::Int(x as i128)
}

#[test]
fn balance_renders_with_nine_fractional_digits() {
    // Normalize a synthetic account response and render it.
    let resp = obj3(vec![(
        "result",
        obj3(vec![(
            "value",
            obj3(vec![
                ("lamports", num3(1_500_000_000)),
                ("owner", JsonValue::Str("SomeOwner".to_string())),
                ("executable", JsonValue::Bool(true)),
                ("space", num3(16)),
            ]),
        )]),
    )]);
    let model = normalize_account(&resp);
    let mut app = App::default();
    app.query = "somequery".to_string();
    let token = app.begin_submission();
    assert!(app.install_result(token, model));
    let rows = render(&app);
    assert_eq!(rows[0].cells, vec!["Type:", "Account Info"]);
    assert_eq!(rows[1].cells, vec!["Balance (SOL):", "\u{25ce} 1.500000000"]);
    assert_eq!(rows[2].cells, vec!["Allocated Data Size:", "16 byte(s)"]);
    assert_eq!(rows[3].cells, vec!["Assigned Program Id:", "SomeOwner"]);
    assert_eq!(rows[4].cells, vec!["Executable:", "Yes"]);
    assert_eq!(rows.len(), 5);
}

#[test]
fn system_program_owner_is_named() {
    let mut app = App::default();
    app.query = "q".to_string();
    app.result = DisplayModel::AccountInfo {
        balance_units: 0,
        owner: "11111111111111111111111111111111".to_string(),
        executable: false,
        data_size: 0,
        recent_signatures: vec![],
    };
    let rows = render(&app);
    assert_eq!(rows[3].cells, vec!["Assigned Program Id:", "System Program"]);
    assert_eq!(rows[4].cells, vec!["Executable:", "No"]);
}

#[test]
fn not_found_renders_exactly_one_explanatory_row() {
    // End to end: a well-formed but nonexistent address is planned as an
    // account fetch, the RPC answers result null, the model settles to
    // NotFound, and the table has exactly one explanatory row.
    let address = well_formed_address();
    assert_eq!(address.len(), 44);
    assert_eq!(plan_fetch(&address), QueryPlan::FetchAccount);
    let resp = Ok(obj3(vec![("result", JsonValue::Null)]));
    let model = match account_stage1(&resp) {
        AccountStage::Done(m) => m,
        other => panic!("expected Done, got {:?}", other),
    };
    assert_eq!(model, DisplayModel::NotFound);
    let mut app = App::default();
    app.query = address;
    let token = app.begin_submission();
    assert!(app.install_result(token, model));
    let rows = render(&app);
    assert_eq!(rows.len(), 1);
    assert_eq!(rows[0].cells, vec!["Result:", "Not found."]);
}

#[test]
fn pending_renders_loading_row() {
    let mut app = App::default();
    app.query = "q".to_string();
    app.begin_submission();
    let rows = render(&app);
    assert_eq!(rows.len(), 1);
    assert_eq!(rows[0].cells, vec!["Status:", "Loading..."]);
}

#[test]
fn unsupported_and_failed_rows() {
    let mut app = App::default();
    app.query = "q".to_string();
    app.result = DisplayModel::Unsupported;
    assert_eq!(render(&app)[0].cells, vec!["Error:", "Unsupported response type."]);
    app.result = DisplayModel::FetchFailed;
    assert_eq!(render(&app)[0].cells, vec!["Error:", "Request failed."]);
}

#[test]
fn dashboard_rows_follow_present_fields() {
    let mut app = App::default();
    app.dashboard = DashboardModel {
        slot: Some(1234567),
        total_supply: Some(1000000000),
        circulating_supply: Some(400000000),
        transaction_count: None,
    };
    let rows = render(&app);
    assert_eq!(rows[0].cells, vec!["Network", "Devnet"]);
    assert_eq!(rows[1].cells, vec!["Slot:", "1,234,567"]);
    assert_eq!(
        rows[2].cells,
        vec!["Circulating Supply:", "400,000,000 / 1,000,000,000"]
    );
    assert_eq!(rows.len(), 3);
}

#[test]
fn dashboard_with_failed_field_omits_its_row() {
    let mut app = App::default();
    app.dashboard = DashboardModel {
        slot: None,
        total_supply: None,
        circulating_supply: None,
        transaction_count: Some(42),
    };
    let rows = render(&app);
    assert_eq!(rows[0].cells, vec!["Network", "Devnet"]);
    assert_eq!(rows[1].cells, vec!["Transaction count:", "42"]);
    assert_eq!(rows.len(), 2);
}

#[test]
fn transaction_rows_and_block_time() {
    let mut app = App::default();
    app.query = "abcdefghijklmnopqrstuvwxyz0123456789".to_string();
    app.result = DisplayModel::TransactionInfo {
        slot: 1234567,
        block_time: Some(0),
        fee_units: 5000,
        succeeded: true,
        error: None,
        compute_units: None,
        balance_deltas: vec![],
    };
    let rows = render(&app);
    assert_eq!(rows[0].cells, vec!["Type:", "Transaction Info"]);
    assert_eq!(rows[1].cells, vec!["Slot:", "1,234,567"]);
    assert_eq!(rows[2].cells, vec!["Block Time:", "1970-01-01 00:00:00 UTC"]);
    assert_eq!(rows[3].cells, vec!["Fee (SOL):", "\u{25ce} 0.000005000"]);
    assert_eq!(rows[4].cells, vec!["Status:", "SUCCESS"]);
    assert_eq!(rows[5].cells, vec!["Signatures:", "abcdefghijklmnopqrstuvwx..."]);
    assert_eq!(rows.len(), 6);
}

#[test]
fn absent_block_time_renders_na() {
    let mut app = App::default();
    app.query = "q".to_string();
    app.result = DisplayModel::TransactionInfo {
        slot: 1,
        block_time: None,
        fee_units: 0,
        succeeded: false,
        error: Some("boom".to_string()),
        compute_units: None,
        balance_deltas: vec![],
    };
    let rows = render(&app);
    assert_eq!(rows[2].cells, vec!["Block Time:", "N/A"]);
    assert_eq!(rows[4].cells, vec!["Status:", "Err"]);
}

#[test]
fn account_history_table() {
    let mut app = App::default();
    app.query = "q".to_string();
    app.result = DisplayModel::AccountInfo {
        balance_units: 1,
        owner: "X".to_string(),
        executable: false,
        data_size: 0,
        recent_signatures: vec![soonscan::model::SignatureEntry {
            signature: "s".repeat(30),
            slot: 1000,
            block_time: None,
            confirmation_status: "finalized".to_string(),
        }],
    };
    let rows = render(&app);
    // Five field rows, spacer, heading, spacer, header, one entry.
    assert_eq!(rows.len(), 10);
    assert_eq!(rows[8].cells, vec!["Transaction", "Block", "Timestamp", "Result"]);
    assert_eq!(
        rows[9].cells,
        vec![
            format!("{}...", "s".repeat(23)),
            "1,000".to_string(),
            "N/A".to_string(),
            "finalized".to_string(),
        ]
    );
}

#[test]
fn popup_rectangle_is_centered() {
    let r = centered_rect(60, 40, 100, 50);
    assert_eq!(r.width, 60);
    assert_eq!(r.height, 20);
    assert_eq!(r.x, 20);
    assert_eq!(r.y, 15);
}
