//! Command-line decisions: what an invocation should do, which endpoint a
//! network flag selects, and the exact report a one-shot signature status
//! check prints.

use vstd::prelude::*;
use vstd::string::*;
use crate::json::{spec_arr_of, spec_get, spec_get_str, spec_get_u64, JsonValue};
use crate::model::GatewayError;
use crate::normalize::{extract_result, spec_extract_result, str_or, u64_or_zero};
use crate::textfmt::{dec_digits, u64_digits};

verus! {

/// The character sequences of a sequence of owned strings.
pub open spec fn strings_view(v: Seq<String>) -> Seq<Seq<char>> {
    v.map_values(|s: String| s@)
}

/// What a command-line invocation should do.
#[derive(Debug, Clone, PartialEq)]
pub enum CliPlan {
    /// No arguments: run the interactive dashboard.
    Dashboard,
    /// Check one transaction signature against an endpoint, print the
    /// report, and exit.
    Check { rpc_url: String, signature: String },
    /// Bad usage: print the usage message, then fall back to the
    /// interactive dashboard.
    UsageDashboard,
}

/// The three recognized network-selector flags.
pub open spec fn is_network_flag(s: Seq<char>) -> bool {
    s == "-D"@ || s == "-T"@ || s == "-M"@
}

/// The endpoint a flag selects; anything unrecognized falls back to
/// mainnet.
pub open spec fn flag_url_chars(flag: Seq<char>) -> Seq<char> {
    if flag == "-D"@ {
        "https://rpc.devnet.soo.network/rpc"@
    } else if flag == "-T"@ {
        "https://rpc.testnet.soo.network/rpc"@
    } else {
        "https://api.mainnet-beta.solana.com"@
    }
}

/// How an argument vector maps to a plan: no arguments runs the
/// dashboard; one argument is a signature to check on mainnet, unless it
/// is a bare network flag, which is a usage error; a flag plus a
/// signature checks against the flag's endpoint; anything else is a
/// usage error.  (The element at index zero is the program name.)
pub open spec fn cli_plan_matches(args: Seq<Seq<char>>, p: CliPlan) -> bool {
    if args.len() == 1 {
        p == CliPlan::Dashboard
    } else if args.len() == 2 {
        if is_network_flag(args[1]) {
            p == CliPlan::UsageDashboard
        } else {
            match p {
                CliPlan::Check { rpc_url, signature } => rpc_url@
                    == "https://api.mainnet-beta.solana.com"@ && signature@ == args[1],
                _ => false,
            }
        }
    } else if args.len() == 3 {
        match p {
            CliPlan::Check { rpc_url, signature } => rpc_url@ == flag_url_chars(args[1])
                && signature@ == args[2],
            _ => false,
        }
    } else {
        p == CliPlan::UsageDashboard
    }
}

/// Whether `s` is one of the network-selector flags.
fn is_flag(s: &String) -> (b: bool)
    ensures
        b == is_network_flag(s@),
{
    let d = "-D".to_owned();
    let t = "-T".to_owned();
    let m = "-M".to_owned();
    *s == d || *s == t || *s == m
}

/// The endpoint URL a flag selects.
pub fn select_rpc_url(flag: &String) -> (u: String)
    ensures
        u@ == flag_url_chars(flag@),
{
    let d = "-D".to_owned();
    let t = "-T".to_owned();
    if *flag == d {
        "https://rpc.devnet.soo.network/rpc".to_owned()
    } else if *flag == t {
        "https://rpc.testnet.soo.network/rpc".to_owned()
    } else {
        "https://api.mainnet-beta.solana.com".to_owned()
    }
}

/// Decide what a command-line invocation should do.
pub fn plan_cli(args: &Vec<String>) -> (p: CliPlan)
    ensures
        cli_plan_matches(strings_view(args@), p),
{
    if args.len() == 1 {
        CliPlan::Dashboard
    } else if args.len() == 2 {
        if is_flag(&args[1]) {
            CliPlan::UsageDashboard
        } else {
            CliPlan::Check {
                rpc_url: "https://api.mainnet-beta.solana.com".to_owned(),
                signature: args[1].clone(),
            }
        }
    } else if args.len() == 3 {
        CliPlan::Check { rpc_url: select_rpc_url(&args[1]), signature: args[2].clone() }
    } else {
        CliPlan::UsageDashboard
    }
}

/// A transaction succeeded when its status entry's `err` is absent or
/// null.
pub open spec fn status_ok(st: JsonValue) -> bool {
    match spec_get(st, "err"@) {
        Some(e) => e is Null,
        None => true,
    }
}

/// The detail lines for a found status entry: a heading, the slot, the
/// confirmation count (or `N/A` while unknown), the confirmation status,
/// and the success line.
pub open spec fn status_detail_lines(st: JsonValue) -> Seq<Seq<char>> {
    seq![
        "Transaction Status Details:"@,
        "Slot: "@ + dec_digits(u64_or_zero(spec_get_u64(st, "slot"@)) as nat),
        "Confirmations: "@ + (match spec_get_u64(st, "confirmations"@) {
            Some(c) => dec_digits(c as nat),
            None => "N/A"@,
        }),
        "Confirmation Status: "@ + str_or(spec_get_str(st, "confirmationStatus"@), "Unknown"@),
        (if status_ok(st) {
            "Transaction Status: Successful"@
        } else {
            "Transaction Status: Failed"@
        }),
    ]
}

/// The whole report: a transport failure prints one error line and asks
/// for a failure exit; otherwise the lookup succeeded (exit zero) and
/// the lines say what the first status slot held — nothing usable, an
/// explicit null (no such transaction), or the details.
pub open spec fn status_report_matches(
    resp: Result<JsonValue, GatewayError>,
    lines: Seq<Seq<char>>,
    success: bool,
) -> bool {
    match resp {
        Result::Err(_) => lines == seq!["Error fetching transaction status"@] && !success,
        Result::Ok(j) => success && (match spec_extract_result(j) {
            None => lines == seq!["No status information available"@],
            Some(res) => match spec_get(res, "value"@) {
                None => lines == seq!["No status information available"@],
                Some(v) => match spec_arr_of(v) {
                    None => lines == seq!["No status information available"@],
                    Some(arr) => if arr.len() == 0 {
                        lines == seq!["No status information available"@]
                    } else if arr[0] is Null {
                        lines == seq!["Transaction not found or does not exist"@]
                    } else {
                        lines == status_detail_lines(arr[0])
                    },
                },
            },
        }),
    }
}

/// Build the one-shot status report from the gateway's outcome.
pub fn status_report(resp: &Result<JsonValue, GatewayError>) -> (r: (Vec<String>, bool))
    ensures
        status_report_matches(*resp, strings_view(r.0@), r.1),
{
    match resp {
        Result::Err(_) => {
            let mut lines: Vec<String> = Vec::new();
            lines.push("Error fetching transaction status".to_owned());
            proof {
                assert(strings_view(lines@) =~= seq!["Error fetching transaction status"@]);
            }
            (lines, false)
        },
        Result::Ok(j) => {
            let entry: Option<&JsonValue> = match extract_result(j) {
                None => None,
                Some(res) => match res.get("value") {
                    None => None,
                    Some(v) => match v.as_array() {
                        None => None,
                        Some(arr) => if arr.len() == 0 {
                            None
                        } else {
                            Some(&arr[0])
                        },
                    },
                },
            };
            let mut lines: Vec<String> = Vec::new();
            match entry {
                None => {
                    lines.push("No status information available".to_owned());
                    proof {
                        assert(strings_view(lines@) =~= seq!["No status information available"@]);
                    }
                },
                Some(st) => {
                    if st.is_null() {
                        lines.push("Transaction not found or does not exist".to_owned());
                        proof {
                            assert(strings_view(lines@) =~= seq![
                                "Transaction not found or does not exist"@,
                            ]);
                        }
                    } else {
                        lines.push("Transaction Status Details:".to_owned());
                        let mut slot_line = "Slot: ".to_owned();
                        let slot: u64 = match st.get_u64("slot") {
                            Some(v) => v,
                            None => 0,
                        };
                        slot_line.append(u64_digits(slot).as_str());
                        lines.push(slot_line);
                        let mut conf_line = "Confirmations: ".to_owned();
                        match st.get_u64("confirmations") {
                            Some(c) => {
                                conf_line.append(u64_digits(c).as_str());
                            },
                            None => {
                                conf_line.append("N/A");
                            },
                        }
                        lines.push(conf_line);
                        let mut cs_line = "Confirmation Status: ".to_owned();
                        match st.get_str("confirmationStatus") {
                            Some(s) => {
                                let copied = s.clone();
                                cs_line.append(copied.as_str());
                            },
                            None => {
                                cs_line.append("Unknown");
                            },
                        }
                        lines.push(cs_line);
                        let ok: bool = match st.get("err") {
                            Some(e) => e.is_null(),
                            None => true,
                        };
                        lines.push(
                            if ok {
                                "Transaction Status: Successful".to_owned()
                            } else {
                                "Transaction Status: Failed".to_owned()
                            },
                        );
                        proof {
                            assert(strings_view(lines@) =~= status_detail_lines(*st));
                        }
                    }
                },
            }
            (lines, true)
        },
    }
}

} // verus!
