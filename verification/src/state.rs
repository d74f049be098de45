//! UI state and its keyboard-driven state machine: input mode, network
//! selection, popup visibility, exit flag, and the supersession guard
//! that keeps a stale fetch result from overwriting a newer one.

use vstd::prelude::*;
use vstd::string::*;
use crate::model::{DashboardModel, DisplayModel};

verus! {

/// The two JSON-RPC endpoints the dashboard can talk to.  Toggling cycles
/// through exactly these two; the choice only affects the next submission.
#[derive(Debug, Clone, Copy, PartialEq, Eq, Structural)]
pub enum RpcNetwork {
    Devnet,
    Testnet,
}

/// The characters of the endpoint URL for a network.
pub open spec fn url_chars(net: RpcNetwork) -> Seq<char> {
    match net {
        RpcNetwork::Devnet => "https://rpc.devnet.soo.network/rpc"@,
        RpcNetwork::Testnet => "https://rpc.testnet.soo.network/rpc"@,
    }
}

/// The characters of the display name for a network.
pub open spec fn name_chars(net: RpcNetwork) -> Seq<char> {
    match net {
        RpcNetwork::Devnet => "Devnet"@,
        RpcNetwork::Testnet => "Testnet"@,
    }
}

impl RpcNetwork {
    /// The RPC URL for this network.
    pub fn get_url(&self) -> (r: &'static str)
        ensures
            r@ == url_chars(*self),
    {
        match self {
            RpcNetwork::Devnet => "https://rpc.devnet.soo.network/rpc",
            RpcNetwork::Testnet => "https://rpc.testnet.soo.network/rpc",
        }
    }

    /// The display name for this network.
    pub fn name(&self) -> (r: &'static str)
        ensures
            r@ == name_chars(*self),
    {
        match self {
            RpcNetwork::Devnet => "Devnet",
            RpcNetwork::Testnet => "Testnet",
        }
    }

    /// The other network of the pair.
    pub open spec fn spec_toggled(self) -> RpcNetwork {
        match self {
            RpcNetwork::Devnet => RpcNetwork::Testnet,
            RpcNetwork::Testnet => RpcNetwork::Devnet,
        }
    }
}

/// Whether key presses edit the query buffer or act as commands.
#[derive(Debug, Clone, Copy, PartialEq, Eq, Structural)]
pub enum InputMode {
    Normal,
    Editing,
}

/// A discrete keyboard event, as the terminal driver reports it.
#[derive(Debug, Clone, PartialEq)]
pub enum KeyEvent {
    Char(char),
    Enter,
    Esc,
    Backspace,
    /// The paste command, carrying the clipboard text verbatim.
    Paste(String),
}

/// What the event loop must do after a key is handled.
#[derive(Debug, Clone, Copy, PartialEq, Eq, Structural)]
pub enum Action {
    Idle,
    /// The query buffer is non-empty and was submitted.
    Submit,
    /// The exit flag was set; stop processing events.
    Quit,
}

/// The interactive application state: the query buffer, input mode,
/// network selection, popup and exit flags, the last dashboard, the
/// current query result, and the submission counter that guards against
/// stale results.
#[derive(Debug)]
pub struct App {
    pub query: String,
    pub input_mode: InputMode,
    pub show_popup: bool,
    pub exit: bool,
    pub current_rpc_network: RpcNetwork,
    pub dashboard: DashboardModel,
    pub result: DisplayModel,
    /// How many query submissions have been registered.
    pub submitted: u64,
    /// The network the latest submission was issued against.
    pub latest_network: RpcNetwork,
}

/// The command characters act in any mode and are never appended to the
/// query buffer.
pub open spec fn is_command_char(c: char) -> bool {
    c == 'q' || c == 'e' || c == 'n' || c == '?'
}

/// The query buffer after a key event.
pub open spec fn query_after(a: App, ev: KeyEvent) -> Seq<char> {
    if a.exit {
        a.query@
    } else {
        match ev {
            KeyEvent::Char(c) => if a.input_mode is Editing && !is_command_char(c) {
                a.query@.push(c)
            } else {
                a.query@
            },
            KeyEvent::Paste(p) => if a.input_mode is Editing {
                a.query@ + p@
            } else {
                a.query@
            },
            KeyEvent::Backspace => if a.input_mode is Editing && a.query@.len() > 0 {
                a.query@.drop_last()
            } else {
                a.query@
            },
            _ => a.query@,
        }
    }
}

/// The input mode after a key event.
pub open spec fn mode_after(a: App, ev: KeyEvent) -> InputMode {
    if a.exit {
        a.input_mode
    } else {
        match ev {
            KeyEvent::Char(c) => if c == 'e' && a.input_mode is Normal {
                InputMode::Editing
            } else {
                a.input_mode
            },
            KeyEvent::Enter => InputMode::Normal,
            KeyEvent::Esc => InputMode::Normal,
            _ => a.input_mode,
        }
    }
}

/// The popup flag after a key event.
pub open spec fn popup_after(a: App, ev: KeyEvent) -> bool {
    if a.exit {
        a.show_popup
    } else {
        match ev {
            KeyEvent::Char(c) => if c == '?' {
                !a.show_popup
            } else {
                a.show_popup
            },
            _ => a.show_popup,
        }
    }
}

/// The selected network after a key event.
pub open spec fn network_after(a: App, ev: KeyEvent) -> RpcNetwork {
    if a.exit {
        a.current_rpc_network
    } else {
        match ev {
            KeyEvent::Char(c) => if c == 'n' {
                a.current_rpc_network.spec_toggled()
            } else {
                a.current_rpc_network
            },
            _ => a.current_rpc_network,
        }
    }
}

/// The exit flag after a key event; once set it never clears.
pub open spec fn exit_after(a: App, ev: KeyEvent) -> bool {
    a.exit || (match ev {
        KeyEvent::Char(c) => c == 'q',
        _ => false,
    })
}

/// The action a key event triggers.
pub open spec fn action_of(a: App, ev: KeyEvent) -> Action {
    if a.exit {
        Action::Idle
    } else {
        match ev {
            KeyEvent::Char(c) => if c == 'q' {
                Action::Quit
            } else {
                Action::Idle
            },
            KeyEvent::Enter => if a.input_mode is Editing && a.query@.len() > 0 {
                Action::Submit
            } else {
                Action::Idle
            },
            _ => Action::Idle,
        }
    }
}

/// Relies on String::push: appends the given character to the end of the
/// string.
#[verifier::external_body]
fn push_char(s: &mut String, c: char)
    ensures
        final(s)@ == old(s)@.push(c),
{
    s.push(c);
}

/// Relies on String::pop: removes the last character; leaves an empty
/// string unchanged.
#[verifier::external_body]
fn pop_char(s: &mut String)
    ensures
        final(s)@ == (if old(s)@.len() == 0 {
            old(s)@
        } else {
            old(s)@.drop_last()
        }),
{
    s.pop();
}

impl Default for App {
    /// The startup state: empty query, normal mode, popup hidden, not
    /// exited, devnet selected, nothing fetched, no query submitted.
    fn default() -> (r: App)
        ensures
            r.query@ == Seq::<char>::empty(),
            r.input_mode == InputMode::Normal,
            r.show_popup == false,
            r.exit == false,
            r.current_rpc_network == RpcNetwork::Devnet,
            r.dashboard == (DashboardModel {
                slot: None,
                total_supply: None,
                circulating_supply: None,
                transaction_count: None,
            }),
            r.result == DisplayModel::NoQuery,
            r.submitted == 0,
            r.latest_network == RpcNetwork::Devnet,
    {
        App {
            query: String::new(),
            input_mode: InputMode::Normal,
            show_popup: false,
            exit: false,
            current_rpc_network: RpcNetwork::Devnet,
            dashboard: DashboardModel {
                slot: None,
                total_supply: None,
                circulating_supply: None,
                transaction_count: None,
            },
            result: DisplayModel::NoQuery,
            submitted: 0,
            latest_network: RpcNetwork::Devnet,
        }
    }
}

impl App {
    /// Toggle between the two networks.  The current display is kept;
    /// only the next submission uses the new endpoint.
    pub fn toggle_rpc_network(&mut self)
        ensures
            final(self).current_rpc_network == old(self).current_rpc_network.spec_toggled(),
            final(self).query == old(self).query,
            final(self).input_mode == old(self).input_mode,
            final(self).show_popup == old(self).show_popup,
            final(self).exit == old(self).exit,
            final(self).dashboard == old(self).dashboard,
            final(self).result == old(self).result,
            final(self).submitted == old(self).submitted,
            final(self).latest_network == old(self).latest_network,
    {
        self.current_rpc_network = match self.current_rpc_network {
            RpcNetwork::Devnet => RpcNetwork::Testnet,
            RpcNetwork::Testnet => RpcNetwork::Devnet,
        };
    }

    /// The URL of the currently selected network.
    pub fn get_current_rpc_url(&self) -> (r: &'static str)
        ensures
            r@ == url_chars(self.current_rpc_network),
    {
        self.current_rpc_network.get_url()
    }

    /// Feed one key event through the state machine.  Once the exit flag
    /// is set, events change nothing.
    pub fn handle_key(&mut self, ev: &KeyEvent) -> (a: Action)
        ensures
            final(self).query@ == query_after(*old(self), *ev),
            final(self).input_mode == mode_after(*old(self), *ev),
            final(self).show_popup == popup_after(*old(self), *ev),
            final(self).current_rpc_network == network_after(*old(self), *ev),
            final(self).exit == exit_after(*old(self), *ev),
            final(self).dashboard == old(self).dashboard,
            final(self).result == old(self).result,
            final(self).submitted == old(self).submitted,
            final(self).latest_network == old(self).latest_network,
            a == action_of(*old(self), *ev),
    {
        if self.exit {
            return Action::Idle;
        }
        match ev {
            KeyEvent::Char(c) => {
                let ch = *c;
                if ch == 'q' {
                    self.exit = true;
                    Action::Quit
                } else if ch == 'e' {
                    if matches!(self.input_mode, InputMode::Normal) {
                        self.input_mode = InputMode::Editing;
                    }
                    Action::Idle
                } else if ch == 'n' {
                    self.toggle_rpc_network();
                    Action::Idle
                } else if ch == '?' {
                    self.show_popup = !self.show_popup;
                    Action::Idle
                } else {
                    if matches!(self.input_mode, InputMode::Editing) {
                        push_char(&mut self.query, ch);
                    }
                    Action::Idle
                }
            },
            KeyEvent::Enter => {
                if matches!(self.input_mode, InputMode::Editing) {
                    self.input_mode = InputMode::Normal;
                    if self.query.as_str().is_empty() {
                        Action::Idle
                    } else {
                        Action::Submit
                    }
                } else {
                    Action::Idle
                }
            },
            KeyEvent::Esc => {
                self.input_mode = InputMode::Normal;
                Action::Idle
            },
            KeyEvent::Backspace => {
                if matches!(self.input_mode, InputMode::Editing) {
                    pop_char(&mut self.query);
                }
                Action::Idle
            },
            KeyEvent::Paste(p) => {
                if matches!(self.input_mode, InputMode::Editing) {
                    self.query.append(p.as_str());
                }
                Action::Idle
            },
        }
    }
}

/// The state after a submission is registered: the sequence number
/// advances, the issuing network is recorded, and the display resets to
/// `Pending`, discarding the previous result wholesale.
pub open spec fn spec_begin(a: App) -> (App, u64) {
    let t = (a.submitted + 1) as u64;
    (
        App {
            submitted: t,
            latest_network: a.current_rpc_network,
            result: DisplayModel::Pending,
            ..a
        },
        t,
    )
}

/// A completed fetch may install its result only if no newer submission
/// superseded it and its network is still the selected one.
pub open spec fn install_accepted(a: App, token: u64) -> bool {
    token == a.submitted && a.current_rpc_network == a.latest_network
}

/// The state after a completed fetch offers its result under `token`.
pub open spec fn spec_install(a: App, token: u64, m: DisplayModel) -> (App, bool) {
    if install_accepted(a, token) {
        (App { result: m, ..a }, true)
    } else {
        (a, false)
    }
}

impl App {
    /// Register a query submission; the returned token must accompany
    /// the eventual result.
    pub fn begin_submission(&mut self) -> (t: u64)
        requires
            old(self).submitted < u64::MAX,
        ensures
            (*final(self), t) == spec_begin(*old(self)),
    {
        self.submitted = self.submitted + 1;
        self.latest_network = self.current_rpc_network;
        self.result = DisplayModel::Pending;
        self.submitted
    }

    /// Offer a completed fetch's result.  A stale token — or a result
    /// for a network that is no longer selected — is discarded: it never
    /// overwrites a newer display.
    pub fn install_result(&mut self, token: u64, m: DisplayModel) -> (installed: bool)
        ensures
            (*final(self), installed) == spec_install(*old(self), token, m),
    {
        if token == self.submitted && self.current_rpc_network == self.latest_network {
            self.result = m;
            true
        } else {
            false
        }
    }

    /// Replace the dashboard wholesale.
    pub fn set_dashboard(&mut self, d: DashboardModel)
        ensures
            *final(self) == (App { dashboard: d, ..*old(self) }),
    {
        self.dashboard = d;
    }
}

/// No stale overwrite: when a second query is submitted while the first
/// is still pending, the first submission's late result is discarded and
/// only the second's is ever installed.
pub proof fn lemma_stale_result_discarded(a0: App, m1: DisplayModel, m2: DisplayModel)
    requires
        a0.submitted + 2 <= u64::MAX,
    ensures
        ({
            let (a1, t1) = spec_begin(a0);
            let (a2, t2) = spec_begin(a1);
            let (a3, ok2) = spec_install(a2, t2, m2);
            let (a4, ok1) = spec_install(a3, t1, m1);
            &&& ok2
            &&& a3.result == m2
            &&& !ok1
            &&& a4 == a3
        }),
{
}

/// A result issued against a network that is no longer selected is
/// discarded, even if no newer submission superseded it.
pub proof fn lemma_network_switch_discards(a0: App, m: DisplayModel)
    requires
        a0.submitted < u64::MAX,
    ensures
        ({
            let (a1, t) = spec_begin(a0);
            let a2 = App { current_rpc_network: a1.current_rpc_network.spec_toggled(), ..a1 };
            let (a3, ok) = spec_install(a2, t, m);
            &&& !ok
            &&& a3 == a2
        }),
{
}

} // verus!
