//! The closed set of typed commands that the parser produces and the
//! executor consumes.

use vstd::prelude::*;

verus! {

/// Mathematical model of a command: the same variants over character
/// sequences.
pub enum CommandV {
    Help,
    Join,
    Balance,
    Pin { new_pin: Option<Seq<char>> },
    Send { amount: Seq<char>, token: Seq<char>, recipient: Seq<char> },
    Deposit,
    History,
    Redeem { code: Seq<char> },
    Save { name: Seq<char>, phone: Seq<char> },
    Contacts,
    SwitchChain { chain: Seq<char> },
    Unknown(Seq<char>),
}

/// A parsed SMS command. Immutable once constructed; produced only by the
/// parser and consumed only by the executor.
#[derive(Debug, Clone)]
pub enum Command {
    /// Show help/available commands.
    Help,
    /// Register a new user.
    Join,
    /// Check account balance.
    Balance,
    /// Set or change PIN.
    Pin { new_pin: Option<String> },
    /// Send money to someone; the amount is the decimal literal as typed.
    Send { amount: String, token: String, recipient: String },
    /// Check deposit address.
    Deposit,
    /// Check transaction history.
    History,
    /// Redeem a voucher code.
    Redeem { code: String },
    /// Save a contact: SAVE <name> <phone>.
    Save { name: String, phone: String },
    /// List contacts.
    Contacts,
    /// Switch chain: CHAIN <name>.
    SwitchChain { chain: String },
    /// Unknown command, carrying the normalized text or a usage hint.
    Unknown(String),
}

impl View for Command {
    type V = CommandV;

    open spec fn view(&self) -> CommandV {
        match self {
            Command::Help => CommandV::Help,
            Command::Join => CommandV::Join,
            Command::Balance => CommandV::Balance,
            Command::Pin { new_pin } => CommandV::Pin {
                new_pin: match new_pin {
                    Some(p) => Some(p@),
                    None => None,
                },
            },
            Command::Send { amount, token, recipient } => CommandV::Send {
                amount: amount@,
                token: token@,
                recipient: recipient@,
            },
            Command::Deposit => CommandV::Deposit,
            Command::History => CommandV::History,
            Command::Redeem { code } => CommandV::Redeem { code: code@ },
            Command::Save { name, phone } => CommandV::Save { name: name@, phone: phone@ },
            Command::Contacts => CommandV::Contacts,
            Command::SwitchChain { chain } => CommandV::SwitchChain { chain: chain@ },
            Command::Unknown(t) => CommandV::Unknown(t@),
        }
    }
}

impl PartialEq for Command {
    fn eq(&self, other: &Command) -> (r: bool) {
        match (self, other) {
            (Command::Help, Command::Help) => true,
            (Command::Join, Command::Join) => true,
            (Command::Balance, Command::Balance) => true,
            (Command::Pin { new_pin: a }, Command::Pin { new_pin: b }) => match (a, b) {
                (Some(x), Some(y)) => *x == *y,
                (None, None) => true,
                _ => false,
            },
            (
                Command::Send { amount: a1, token: t1, recipient: r1 },
                Command::Send { amount: a2, token: t2, recipient: r2 },
            ) => *a1 == *a2 && *t1 == *t2 && *r1 == *r2,
            (Command::Deposit, Command::Deposit) => true,
            (Command::History, Command::History) => true,
            (Command::Redeem { code: a }, Command::Redeem { code: b }) => *a == *b,
            (
                Command::Save { name: n1, phone: p1 },
                Command::Save { name: n2, phone: p2 },
            ) => *n1 == *n2 && *p1 == *p2,
            (Command::Contacts, Command::Contacts) => true,
            (Command::SwitchChain { chain: a }, Command::SwitchChain { chain: b }) => *a == *b,
            (Command::Unknown(a), Command::Unknown(b)) => *a == *b,
            _ => false,
        }
    }
}

impl vstd::std_specs::cmp::PartialEqSpecImpl for Command {
    open spec fn obeys_eq_spec() -> bool {
        true
    }

    open spec fn eq_spec(&self, other: &Command) -> bool {
        self@ == other@
    }
}

} // verus!
