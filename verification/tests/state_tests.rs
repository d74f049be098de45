use soonscan::model::DisplayModel;
use soonscan::state::{Action, App, InputMode, KeyEvent, RpcNetwork};

fn editing_app() -> App {
    let mut app = App::default();
    assert_eq!(app.handle_key(&KeyEvent::Char('e')), Action::Idle);
    assert_eq!(app.input_mode, InputMode::Editing);
    app
}

#[test]
fn default_state() {
    let app = App::default();
    assert_eq!(app.query, "");
    assert_eq!(app.input_mode, InputMode::Normal);
    assert!(!app.show_popup);
    assert!(!app.exit);
    assert_eq!(app.current_rpc_network, RpcNetwork::Devnet);
    assert_eq!(app.result, DisplayModel::NoQuery);
    assert_eq!(app.submitted, 0);
}

#[test]
fn network_urls_and_names() {
    assert_eq!(RpcNetwork::Devnet.get_url(), "https://rpc.devnet.soo.network/rpc");
    assert_eq!(RpcNetwork::Testnet.get_url(), "https://rpc.testnet.soo.network/rpc");
    assert_eq!(RpcNetwork::Devnet.name(), "Devnet");
    assert_eq!(RpcNetwork::Testnet.name(), "Testnet");
}

#[test]
fn toggle_network_cycles_both_ways() {
    let mut app = App::default();
    app.toggle_rpc_network();
    assert_eq!(app.current_rpc_network, RpcNetwork::Testnet);
    assert_eq!(app.get_current_rpc_url(), "https://rpc.testnet.soo.network/rpc");
    app.toggle_rpc_network();
    assert_eq!(app.current_rpc_network, RpcNetwork::Devnet);
    assert_eq!(app.get_current_rpc_url(), "https://rpc.devnet.soo.network/rpc");
}

#[test]
fn typing_appends_only_in_editing_mode() {
    let mut app = App::default();
    app.handle_key(&KeyEvent::Char('a'));
    assert_eq!(app.query, "");
    let mut app = editing_app();
    app.handle_key(&KeyEvent::Char('a'));
    app.handle_key(&KeyEvent::Char('b'));
    app.handle_key(&KeyEvent::Char('v'));
    assert_eq!(app.query, "abv");
}

#[test]
fn backspace_removes_last_character() {
    let mut app = editing_app();
    app.handle_key(&KeyEvent::Char('a'));
    app.handle_key(&KeyEvent::Char('b'));
    app.handle_key(&KeyEvent::Backspace);
    assert_eq!(app.query, "a");
    app.handle_key(&KeyEvent::Backspace);
    app.handle_key(&KeyEvent::Backspace);
    assert_eq!(app.query, "");
}

#[test]
fn paste_appends_verbatim() {
    let mut app = editing_app();
    app.handle_key(&KeyEvent::Char('x'));
    app.handle_key(&KeyEvent::Paste("pasted text".to_string()));
    assert_eq!(app.query, "xpasted text");
    // Pasting outside editing mode does nothing.
    app.handle_key(&KeyEvent::Esc);
    app.handle_key(&KeyEvent::Paste("more".to_string()));
    assert_eq!(app.query, "xpasted text");
}

#[test]
fn enter_submits_non_empty_query() {
    let mut app = editing_app();
    app.handle_key(&KeyEvent::Char('a'));
    assert_eq!(app.handle_key(&KeyEvent::Enter), Action::Submit);
    assert_eq!(app.input_mode, InputMode::Normal);
}

#[test]
fn enter_with_empty_query_submits_nothing() {
    let mut app = editing_app();
    assert_eq!(app.handle_key(&KeyEvent::Enter), Action::Idle);
    assert_eq!(app.input_mode, InputMode::Normal);
}

#[test]
fn esc_cancels_editing_without_clearing_query() {
    let mut app = editing_app();
    app.handle_key(&KeyEvent::Char('z'));
    app.handle_key(&KeyEvent::Esc);
    assert_eq!(app.input_mode, InputMode::Normal);
    assert_eq!(app.query, "z");
}

#[test]
fn command_keys_act_in_any_mode() {
    let mut app = editing_app();
    app.handle_key(&KeyEvent::Char('?'));
    assert!(app.show_popup);
    app.handle_key(&KeyEvent::Char('?'));
    assert!(!app.show_popup);
    app.handle_key(&KeyEvent::Char('n'));
    assert_eq!(app.current_rpc_network, RpcNetwork::Testnet);
    assert_eq!(app.handle_key(&KeyEvent::Char('q')), Action::Quit);
    assert!(app.exit);
}

#[test]
fn exit_is_terminal() {
    let mut app = App::default();
    assert_eq!(app.handle_key(&KeyEvent::Char('q')), Action::Quit);
    assert!(app.exit);
    // No further event changes anything.
    assert_eq!(app.handle_key(&KeyEvent::Char('e')), Action::Idle);
    assert_eq!(app.input_mode, InputMode::Normal);
    assert_eq!(app.handle_key(&KeyEvent::Char('n')), Action::Idle);
    assert_eq!(app.current_rpc_network, RpcNetwork::Devnet);
}

#[test]
fn submission_resets_display_to_pending() {
    let mut app = App::default();
    let t = app.begin_submission();
    assert_eq!(t, 1);
    assert_eq!(app.result, DisplayModel::Pending);
    assert_eq!(app.latest_network, RpcNetwork::Devnet);
}

#[test]
fn stale_result_never_overwrites_newer_submission() {
    let mut app = App::default();
    let t1 = app.begin_submission();
    // The first fetch is still pending when the second is submitted.
    let t2 = app.begin_submission();
    // The second's result arrives and is installed.
    assert!(app.install_result(t2, DisplayModel::NotFound));
    assert_eq!(app.result, DisplayModel::NotFound);
    // The first's delayed result arrives afterwards and is discarded.
    assert!(!app.install_result(t1, DisplayModel::Unsupported));
    assert_eq!(app.result, DisplayModel::NotFound);
}

#[test]
fn network_switch_discards_in_flight_result() {
    let mut app = App::default();
    let t = app.begin_submission();
    app.toggle_rpc_network();
    assert!(!app.install_result(t, DisplayModel::NotFound));
    assert_eq!(app.result, DisplayModel::Pending);
}
