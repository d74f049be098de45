//! The renderer: a pure function from UI state and display model to a
//! table of labeled rows.  The row set is fully determined by whether
//! the query is empty and by the model variant; all terminal drawing is
//! the caller's business.

use vstd::prelude::*;
use vstd::string::*;
use crate::model::{DashboardModel, DisplayModel, SignatureEntry};
use crate::state::{name_chars, App, RpcNetwork};
use crate::textfmt::{
    comma_grouped, dec_digits, ellipsized, fixed9_chars, format_fixed9, format_u64_grouped,
    prefix_ellipsis, u64_digits,
};
use crate::timefmt::{format_timestamp, timestamp_chars};

verus! {

/// One row of the rendered table: a sequence of cell texts.
#[derive(Debug, Clone, PartialEq)]
pub struct Row {
    pub cells: Vec<String>,
}

impl View for Row {
    type V = Seq<Seq<char>>;

    open spec fn view(&self) -> Seq<Seq<char>> {
        self.cells@.map_values(|s: String| s@)
    }
}

/// The cell texts of a whole table.
pub open spec fn rows_view(rows: Seq<Row>) -> Seq<Seq<Seq<char>>> {
    rows.map_values(|r: Row| r@)
}

/// A u64 with thousands separators.
pub open spec fn grouped_u64(v: u64) -> Seq<char> {
    comma_grouped(dec_digits(v as nat))
}

/// A token amount: the token mark, a space, and the fixed-point value.
pub open spec fn token_amount_chars(units: u64) -> Seq<char> {
    seq!['\u{25ce}', ' '] + fixed9_chars(units as nat)
}

/// A block time: its timestamp text, or `N/A` when absent or negative.
pub open spec fn ts_display(t: Option<i64>) -> Seq<char> {
    match t {
        Some(v) => if v >= 0 {
            timestamp_chars(v as int)
        } else {
            "N/A"@
        },
        None => "N/A"@,
    }
}

/// The system program's well-known address displays by name.
pub open spec fn owner_display_chars(owner: Seq<char>) -> Seq<char> {
    if owner == "11111111111111111111111111111111"@ {
        "System Program"@
    } else {
        owner
    }
}

/// The dashboard rows: the network name, then one row per present field.
pub open spec fn dashboard_rows_spec(net: RpcNetwork, d: DashboardModel) -> Seq<Seq<Seq<char>>> {
    seq![seq!["Network"@, name_chars(net)]] + (match d.slot {
        Some(v) => seq![seq!["Slot:"@, grouped_u64(v)]],
        None => Seq::<Seq<Seq<char>>>::empty(),
    }) + (match (d.circulating_supply, d.total_supply) {
        (Some(c), Some(t)) => seq![
            seq!["Circulating Supply:"@, grouped_u64(c) + " / "@ + grouped_u64(t)],
        ],
        _ => Seq::<Seq<Seq<char>>>::empty(),
    }) + (match d.transaction_count {
        Some(v) => seq![seq!["Transaction count:"@, grouped_u64(v)]],
        None => Seq::<Seq<Seq<char>>>::empty(),
    })
}

/// One history entry's row: truncated signature, slot, timestamp, status.
pub open spec fn entry_row(e: SignatureEntry) -> Seq<Seq<char>> {
    seq![
        ellipsized(e.signature@, 23),
        grouped_u64(e.slot),
        ts_display(e.block_time),
        e.confirmation_status@,
    ]
}

/// The account rows: the five field rows, then — only when history is
/// present — a spacer, a heading, a spacer, a header row and one row per
/// entry.
pub open spec fn account_rows_spec(
    balance_units: u64,
    owner: Seq<char>,
    executable: bool,
    data_size: u64,
    sigs: Seq<SignatureEntry>,
) -> Seq<Seq<Seq<char>>> {
    seq![
        seq!["Type:"@, "Account Info"@],
        seq!["Balance (SOL):"@, token_amount_chars(balance_units)],
        seq!["Allocated Data Size:"@, dec_digits(data_size as nat) + " byte(s)"@],
        seq!["Assigned Program Id:"@, owner_display_chars(owner)],
        seq!["Executable:"@, if executable { "Yes"@ } else { "No"@ }],
    ] + (if sigs.len() > 0 {
        seq![
            seq![" "@],
            seq!["Transaction History"@],
            seq![" "@],
            seq!["Transaction"@, "Block"@, "Timestamp"@, "Result"@],
        ] + Seq::new(sigs.len(), |i: int| entry_row(sigs[i]))
    } else {
        Seq::<Seq<Seq<char>>>::empty()
    })
}

/// The transaction rows.
pub open spec fn transaction_rows_spec(
    query: Seq<char>,
    slot: u64,
    block_time: Option<i64>,
    fee_units: u64,
    succeeded: bool,
) -> Seq<Seq<Seq<char>>> {
    seq![
        seq!["Type:"@, "Transaction Info"@],
        seq!["Slot:"@, grouped_u64(slot)],
        seq!["Block Time:"@, ts_display(block_time)],
        seq!["Fee (SOL):"@, token_amount_chars(fee_units)],
        seq!["Status:"@, if succeeded { "SUCCESS"@ } else { "Err"@ }],
        seq!["Signatures:"@, ellipsized(query, 24)],
    ]
}

/// The whole table: an empty query shows the dashboard; a non-empty
/// query shows its result, where `Pending`, `Unsupported`, `NotFound`
/// and `FetchFailed` each render a single explanatory row.
pub open spec fn render_rows(a: App) -> Seq<Seq<Seq<char>>> {
    if a.query@.len() == 0 {
        dashboard_rows_spec(a.current_rpc_network, a.dashboard)
    } else {
        match a.result {
            DisplayModel::Dashboard(d) => dashboard_rows_spec(a.current_rpc_network, d),
            DisplayModel::AccountInfo {
                balance_units,
                owner,
                executable,
                data_size,
                recent_signatures,
            } => account_rows_spec(
                balance_units,
                owner@,
                executable,
                data_size,
                recent_signatures@,
            ),
            DisplayModel::TransactionInfo {
                slot,
                block_time,
                fee_units,
                succeeded,
                error,
                compute_units,
                balance_deltas,
            } => transaction_rows_spec(a.query@, slot, block_time, fee_units, succeeded),
            DisplayModel::Unsupported => seq![seq!["Error:"@, "Unsupported response type."@]],
            DisplayModel::NotFound => seq![seq!["Result:"@, "Not found."@]],
            DisplayModel::FetchFailed => seq![seq!["Error:"@, "Request failed."@]],
            DisplayModel::Pending => seq![seq!["Status:"@, "Loading..."@]],
            DisplayModel::NoQuery => Seq::<Seq<Seq<char>>>::empty(),
        }
    }
}

fn row1(a: String) -> (r: Row)
    ensures
        r@ == seq![a@],
{
    let ghost va = a@;
    let r = Row { cells: vec![a] };
    proof {
        assert(r@ =~= seq![va]);
    }
    r
}

fn row2(a: String, b: String) -> (r: Row)
    ensures
        r@ == seq![a@, b@],
{
    let ghost va = a@;
    let ghost vb = b@;
    let r = Row { cells: vec![a, b] };
    proof {
        assert(r@ =~= seq![va, vb]);
    }
    r
}

fn row4(a: String, b: String, c: String, d: String) -> (r: Row)
    ensures
        r@ == seq![a@, b@, c@, d@],
{
    let ghost va = a@;
    let ghost vb = b@;
    let ghost vc = c@;
    let ghost vd = d@;
    let r = Row { cells: vec![a, b, c, d] };
    proof {
        assert(r@ =~= seq![va, vb, vc, vd]);
    }
    r
}

/// The token mark, a space, and the fixed-point amount.
fn token_amount(units: u64) -> (s: String)
    ensures
        s@ == token_amount_chars(units),
{
    let mut s = "\u{25ce} ".to_owned();
    s.append(format_fixed9(units).as_str());
    proof {
        reveal_strlit("\u{25ce} ");
        assert(s@ =~= token_amount_chars(units));
    }
    s
}

/// A block time, or `N/A`.
fn ts_text(t: &Option<i64>) -> (s: String)
    ensures
        s@ == ts_display(*t),
{
    match t {
        Some(v) => {
            if *v >= 0 {
                format_timestamp(*v)
            } else {
                "N/A".to_owned()
            }
        },
        None => "N/A".to_owned(),
    }
}

/// The rows of the dashboard view.
fn dashboard_rows(net: RpcNetwork, d: &DashboardModel) -> (rows: Vec<Row>)
    ensures
        rows_view(rows@) == dashboard_rows_spec(net, *d),
{
    let mut rows: Vec<Row> = Vec::new();
    rows.push(row2("Network".to_owned(), net.name().to_owned()));
    match d.slot {
        Some(v) => {
            rows.push(row2("Slot:".to_owned(), format_u64_grouped(v)));
        },
        None => {},
    }
    match (d.circulating_supply, d.total_supply) {
        (Some(c), Some(t)) => {
            let mut s = format_u64_grouped(c);
            s.append(" / ");
            s.append(format_u64_grouped(t).as_str());
            proof {
                reveal_strlit(" / ");
            }
            rows.push(row2("Circulating Supply:".to_owned(), s));
        },
        _ => {},
    }
    match d.transaction_count {
        Some(v) => {
            rows.push(row2("Transaction count:".to_owned(), format_u64_grouped(v)));
        },
        None => {},
    }
    proof {
        assert(rows_view(rows@) =~= dashboard_rows_spec(net, *d));
    }
    rows
}

/// The rows of the account view.
fn account_rows(
    balance_units: u64,
    owner: &String,
    executable: bool,
    data_size: u64,
    sigs: &Vec<SignatureEntry>,
) -> (rows: Vec<Row>)
    ensures
        rows_view(rows@) == account_rows_spec(balance_units, owner@, executable, data_size, sigs@),
{
    let mut rows: Vec<Row> = Vec::new();
    rows.push(row2("Type:".to_owned(), "Account Info".to_owned()));
    rows.push(row2("Balance (SOL):".to_owned(), token_amount(balance_units)));
    let mut size_text = u64_digits(data_size);
    size_text.append(" byte(s)");
    rows.push(row2("Allocated Data Size:".to_owned(), size_text));
    let sysid = "11111111111111111111111111111111".to_owned();
    let owner_text: String = if *owner == sysid {
        "System Program".to_owned()
    } else {
        owner.clone()
    };
    rows.push(row2("Assigned Program Id:".to_owned(), owner_text));
    rows.push(
        row2(
            "Executable:".to_owned(),
            if executable {
                "Yes".to_owned()
            } else {
                "No".to_owned()
            },
        ),
    );
    let ghost head = rows_view(rows@);
    proof {
        assert(head =~= account_rows_spec(
            balance_units,
            owner@,
            executable,
            data_size,
            Seq::<SignatureEntry>::empty(),
        ));
    }
    let n = sigs.len();
    if n > 0 {
        rows.push(row1(" ".to_owned()));
        rows.push(row1("Transaction History".to_owned()));
        rows.push(row1(" ".to_owned()));
        rows.push(
            row4(
                "Transaction".to_owned(),
                "Block".to_owned(),
                "Timestamp".to_owned(),
                "Result".to_owned(),
            ),
        );
        let ghost header = rows_view(rows@);
        proof {
            assert(rows_view(rows@) =~= header + Seq::new(0nat, |k: int| entry_row(sigs@[k])));
        }
        let mut i: usize = 0;
        while i < n
            invariant
                i <= n,
                n == sigs.len(),
                rows_view(rows@) == header + Seq::new(i as nat, |k: int| entry_row(sigs@[k])),
            decreases n - i,
        {
            let e = &sigs[i];
            let r = row4(
                prefix_ellipsis(e.signature.as_str(), 23),
                format_u64_grouped(e.slot),
                ts_text(&e.block_time),
                e.confirmation_status.clone(),
            );
            proof {
                assert(r@ == entry_row(sigs@[i as int]));
            }
            let ghost prev = rows@;
            rows.push(r);
            proof {
                let target = header + Seq::new((i + 1) as nat, |k: int| entry_row(sigs@[k]));
                assert(rows_view(prev) == header + Seq::new(i as nat, |k: int| entry_row(sigs@[k])));
                assert(rows_view(prev).len() == header.len() + i);
                assert(rows_view(rows@).len() == target.len());
                assert forall|j: int| 0 <= j < rows_view(rows@).len() implies rows_view(rows@)[j]
                    == target[j] by {
                    if j < prev.len() {
                        assert(rows@[j] == prev[j]);
                        assert(rows_view(rows@)[j] == rows_view(prev)[j]);
                    } else {
                        assert(rows@[j] == r);
                        assert(rows_view(rows@)[j] == r@);
                        assert(target[j] == entry_row(sigs@[i as int]));
                    }
                }
                assert(rows_view(rows@) =~= target);
            }
            i = i + 1;
        }
    }
    proof {
        assert(rows_view(rows@) =~= account_rows_spec(
            balance_units,
            owner@,
            executable,
            data_size,
            sigs@,
        ));
    }
    rows
}

/// The rows of the transaction view.
fn transaction_rows(
    query: &String,
    slot: u64,
    block_time: &Option<i64>,
    fee_units: u64,
    succeeded: bool,
) -> (rows: Vec<Row>)
    ensures
        rows_view(rows@) == transaction_rows_spec(query@, slot, *block_time, fee_units, succeeded),
{
    let mut rows: Vec<Row> = Vec::new();
    rows.push(row2("Type:".to_owned(), "Transaction Info".to_owned()));
    rows.push(row2("Slot:".to_owned(), format_u64_grouped(slot)));
    rows.push(row2("Block Time:".to_owned(), ts_text(block_time)));
    rows.push(row2("Fee (SOL):".to_owned(), token_amount(fee_units)));
    rows.push(
        row2(
            "Status:".to_owned(),
            if succeeded {
                "SUCCESS".to_owned()
            } else {
                "Err".to_owned()
            },
        ),
    );
    rows.push(row2("Signatures:".to_owned(), prefix_ellipsis(query.as_str(), 24)));
    proof {
        assert(rows_view(rows@) =~= transaction_rows_spec(
            query@,
            slot,
            *block_time,
            fee_units,
            succeeded,
        ));
    }
    rows
}

fn single_row(label: &'static str, text: &'static str) -> (rows: Vec<Row>)
    ensures
        rows_view(rows@) == seq![seq![label@, text@]],
{
    let mut rows: Vec<Row> = Vec::new();
    rows.push(row2(label.to_owned(), text.to_owned()));
    proof {
        assert(rows_view(rows@) =~= seq![seq![label@, text@]]);
    }
    rows
}

/// Render the table for the current state: pure, no I/O, no mutation.
pub fn render(app: &App) -> (rows: Vec<Row>)
    ensures
        rows_view(rows@) == render_rows(*app),
{
    if app.query.as_str().is_empty() {
        dashboard_rows(app.current_rpc_network, &app.dashboard)
    } else {
        match &app.result {
            DisplayModel::Dashboard(d) => dashboard_rows(app.current_rpc_network, d),
            DisplayModel::AccountInfo {
                balance_units,
                owner,
                executable,
                data_size,
                recent_signatures,
            } => account_rows(*balance_units, owner, *executable, *data_size, recent_signatures),
            DisplayModel::TransactionInfo {
                slot,
                block_time,
                fee_units,
                succeeded,
                error: _,
                compute_units: _,
                balance_deltas: _,
            } => transaction_rows(&app.query, *slot, block_time, *fee_units, *succeeded),
            DisplayModel::Unsupported => single_row("Error:", "Unsupported response type."),
            DisplayModel::NotFound => single_row("Result:", "Not found."),
            DisplayModel::FetchFailed => single_row("Error:", "Request failed."),
            DisplayModel::Pending => single_row("Status:", "Loading..."),
            DisplayModel::NoQuery => Vec::new(),
        }
    }
}

/// The centered sub-rectangle of a `width` by `height` area taking the
/// given percentages of each dimension; used to place the help popup.
#[derive(Debug, Clone, Copy, PartialEq, Eq, Structural)]
pub struct PopupRect {
    pub x: u16,
    pub y: u16,
    pub width: u16,
    pub height: u16,
}

/// Compute the centered popup rectangle.
pub fn centered_rect(percent_x: u16, percent_y: u16, width: u16, height: u16) -> (r: PopupRect)
    requires
        percent_x <= 100,
        percent_y <= 100,
    ensures
        r.width == width * percent_x / 100,
        r.height == height * percent_y / 100,
        r.x == (width - r.width) / 2,
        r.y == (height - r.height) / 2,
{
    proof {
        assert((width as int) * (percent_x as int) <= 65535 * 100 && (height as int) * (
        percent_y as int) <= 65535 * 100) by (nonlinear_arith)
            requires
                width <= 65535,
                height <= 65535,
                percent_x <= 100,
                percent_y <= 100,
        ;
    }
    let w32: u32 = (width as u32) * (percent_x as u32) / 100;
    let h32: u32 = (height as u32) * (percent_y as u32) / 100;
    proof {
        assert(w32 <= width && h32 <= height) by (nonlinear_arith)
            requires
                w32 == (width as int) * (percent_x as int) / 100,
                h32 == (height as int) * (percent_y as int) / 100,
                percent_x <= 100,
                percent_y <= 100,
                width >= 0,
                height >= 0,
        ;
    }
    let w: u16 = w32 as u16;
    let h: u16 = h32 as u16;
    PopupRect { x: (width - w) / 2, y: (height - h) / 2, width: w, height: h }
}

} // verus!
