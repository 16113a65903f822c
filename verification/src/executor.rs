//! The command executor. Each incoming message is handled statelessly: the
//! processor turns the parsed command into either an immediate reply or a
//! request for one collaborator call; the driver performs the call and hands
//! the outcome back, and the processor decides the next step. Every handler
//! is total: the worst outcome is always a plain-text reply.

use vstd::prelude::*;
use crate::balance::{aggregate, aggregate_spec, balance_lines, balance_lines_spec, ChainBalance};
use crate::chain::{chain_id_spec, name_spec, native_token_spec, Chain};
use crate::command::{Command, CommandV};
use crate::crypto::{
    hex_bytes_of, hex_decode, hex_encode, hex_of, lemma_hex_bytes_len, sha256_hex, sha256_hex_of,
    wallet_key_ok,
};
use crate::parser::CommandProcessor;
use crate::text::{
    all_digits, append_chars, append_str_chars, chars_to_string, is_digit_ch, join_with,
    lemma_all_digits_take, money_chars, money_str, str_to_chars, u64_dec_chars,
};

verus! {

// ---------------------------------------------------------------------------
// Records exchanged with the collaborators
// ---------------------------------------------------------------------------

/// Model of a stored user record.
pub struct UserRecordV {
    pub wallet_address: Seq<char>,
    pub encrypted_private_key: Seq<char>,
}

/// A stored user record: the wallet address and the hex-encoded private-key
/// material.
#[derive(Debug, Clone)]
pub struct UserRecord {
    pub wallet_address: String,
    pub encrypted_private_key: String,
}

impl View for UserRecord {
    type V = UserRecordV;

    open spec fn view(&self) -> UserRecordV {
        UserRecordV {
            wallet_address: self.wallet_address@,
            encrypted_private_key: self.encrypted_private_key@,
        }
    }
}

/// Model of a freshly generated wallet.
pub struct NewWalletV {
    pub address: Seq<char>,
    pub private_key: Seq<u8>,
}

/// A freshly generated wallet from the wallet collaborator.
#[derive(Debug, Clone)]
pub struct NewWallet {
    pub address: String,
    pub private_key: Vec<u8>,
}

impl View for NewWallet {
    type V = NewWalletV;

    open spec fn view(&self) -> NewWalletV {
        NewWalletV { address: self.address@, private_key: self.private_key@ }
    }
}

/// The voucher collaborator's failure taxonomy.
#[derive(Debug, Clone, Copy, PartialEq, Eq, Structural)]
pub enum VoucherError {
    NotFound,
    AlreadyRedeemed,
    Expired,
    DatabaseError,
}

/// A successfully redeemed voucher: the credited stablecoin amount in cents.
#[derive(Debug, Clone, Copy)]
pub struct RedeemedVoucher {
    pub usdc_cents: u64,
}

/// Model of one deposit record.
pub struct DepositRecordV {
    pub amount_cents: u64,
    pub source: Seq<char>,
}

/// One deposit record from the deposit repository.
#[derive(Debug, Clone)]
pub struct DepositRecord {
    pub amount_cents: u64,
    pub source: String,
}

impl View for DepositRecord {
    type V = DepositRecordV;

    open spec fn view(&self) -> DepositRecordV {
        DepositRecordV { amount_cents: self.amount_cents, source: self.source@ }
    }
}

impl DeepView for DepositRecord {
    type V = DepositRecordV;

    open spec fn deep_view(&self) -> DepositRecordV {
        self.view()
    }
}

/// Model of one address-book entry.
pub struct ContactRecordV {
    pub name: Seq<char>,
    pub phone: Seq<char>,
}

/// One address-book entry.
#[derive(Debug, Clone)]
pub struct ContactRecord {
    pub name: String,
    pub phone: String,
}

impl View for ContactRecord {
    type V = ContactRecordV;

    open spec fn view(&self) -> ContactRecordV {
        ContactRecordV { name: self.name@, phone: self.phone@ }
    }
}

impl DeepView for ContactRecord {
    type V = ContactRecordV;

    open spec fn deep_view(&self) -> ContactRecordV {
        self.view()
    }
}

// ---------------------------------------------------------------------------
// The state machine's alphabet
// ---------------------------------------------------------------------------

/// One collaborator call the driver must perform for the sender's identity.
#[derive(Debug)]
pub enum PendingCall {
    /// User repository: does a record exist for the sender?
    UserExists,
    /// User repository: fetch the sender's record.
    FindUser,
    /// Wallet collaborator: generate a fresh wallet.
    CreateWallet,
    /// User repository: persist a new record for the sender.
    PersistUser { wallet_address: String, encrypted_key: String },
    /// User repository: store the sender's hashed PIN.
    UpdatePin { pin_hash: String },
    /// Deposit repository: the five most recent records for the sender.
    GetRecentDeposits,
    /// Voucher repository: redeem the code for the sender.
    RedeemVoucher { code: String },
    /// Deposit repository: record a redeemed voucher's credit.
    RecordVoucherDeposit { amount_cents: u64, code: String },
    /// Address book: store a contact under the sender's identity.
    AddContact { name: String, phone: String },
    /// Address book: all contacts of the sender.
    ListContacts,
    /// Wallet collaborator: rebuild the wallet from 32 key bytes.
    ReconstructWallet { key: Vec<u8> },
    /// Every chain provider, concurrently: balances for this address, one
    /// outcome per registered chain, in registry order.
    QueryAllBalances { address: String },
}

/// Where the executor stands while a collaborator call is outstanding.
#[derive(Debug)]
pub enum Machine {
    JoinAwaitExists,
    JoinAwaitWallet,
    JoinAwaitPersist { wallet_address: String },
    BalanceAwaitFind,
    BalanceAwaitWallet,
    BalanceAwaitQueries,
    PinAwaitUpdate,
    DepositAwaitFind,
    HistoryAwaitRecent,
    RedeemAwaitExists { code: String },
    RedeemAwaitRedeem { code: String },
    RedeemAwaitRecord { usdc_cents: u64 },
    SaveAwaitAdd { name: String, phone: String },
    ContactsAwaitList,
}

/// The outcome of one collaborator call. `Err(())` is the collaborator
/// failing or being unreachable.
#[derive(Debug)]
pub enum CallResult {
    UserExists(Result<bool, ()>),
    FindUser(Result<Option<UserRecord>, ()>),
    CreateWallet(Result<NewWallet, ()>),
    PersistUser(Result<(), ()>),
    UpdatePin(Result<(), ()>),
    GetRecentDeposits(Result<Vec<DepositRecord>, ()>),
    RedeemVoucher(Result<RedeemedVoucher, VoucherError>),
    RecordVoucherDeposit(Result<(), ()>),
    AddContact(Result<(), ()>),
    ListContacts(Result<Vec<ContactRecord>, ()>),
    ReconstructWallet(Result<String, ()>),
    QueryAllBalances(Vec<Option<ChainBalance>>),
}

/// What the driver must do next: send the reply, or perform one call and
/// resume with its outcome.
#[derive(Debug)]
pub enum Step {
    Ask(PendingCall, Machine),
    Reply(String),
}

/// The step is a final reply with exactly this text.
pub open spec fn replies(step: Step, msg: Seq<char>) -> bool {
    step matches Step::Reply(t) && t@ == msg
}

// ---------------------------------------------------------------------------
// Reply texts
// ---------------------------------------------------------------------------

pub open spec fn help_text() -> Seq<char> {
    "TextChain Commands:\nJOIN - Create wallet\nBALANCE - Check balance\nREDEEM <code> - Use voucher\nDEPOSIT - Get address\nSEND 10 USDC TO +91...\nSAVE <name> <phone>\nCONTACTS - List saved\nCHAIN <polygon|base>\nHELP - This message"@
}

/// The reply to unparseable input: a welcome for empty input, otherwise an
/// echo of at most the first fifteen characters plus a help hint.
pub open spec fn unknown_reply(t: Seq<char>) -> Seq<char> {
    if t.len() == 0 {
        "Welcome to TextChain!\n\nReply HELP for commands."@
    } else {
        "Unknown: "@ + t.take(
            if t.len() > 15 {
                15int
            } else {
                t.len() as int
            },
        ) + "\n\nReply HELP for commands."@
    }
}

/// A valid PIN: four to six characters, all decimal digits.
pub open spec fn valid_pin(p: Seq<char>) -> bool {
    4 <= p.len() <= 6 && all_digits(p)
}

/// The distinct reply for each voucher failure.
pub open spec fn voucher_error_reply(e: VoucherError) -> Seq<char> {
    match e {
        VoucherError::NotFound => "Invalid voucher code."@,
        VoucherError::AlreadyRedeemed => "Voucher already used."@,
        VoucherError::Expired => "Voucher has expired."@,
        VoucherError::DatabaseError => "Error. Try later."@,
    }
}

/// Each voucher failure maps to its own stable reply text: distinct
/// failures never share a reply.
pub proof fn lemma_voucher_replies_distinct(e1: VoucherError, e2: VoucherError)
    requires
        e1 != e2,
    ensures
        voucher_error_reply(e1) != voucher_error_reply(e2),
{
    reveal_strlit("Invalid voucher code.");
    reveal_strlit("Voucher already used.");
    reveal_strlit("Voucher has expired.");
    reveal_strlit("Error. Try later.");
    assert("Invalid voucher code."@[0] == 'I');
    assert("Voucher already used."@[0] == 'V');
    assert("Voucher has expired."@[0] == 'V');
    assert("Error. Try later."@[0] == 'E');
    assert("Voucher already used."@.len() == 21);
    assert("Voucher has expired."@.len() == 20);
}

pub open spec fn history_line_spec(d: DepositRecordV) -> Seq<char> {
    money_str(d.amount_cents as int) + " via "@ + d.source
}

pub open spec fn history_lines_spec(ds: Seq<DepositRecordV>) -> Seq<char> {
    join_with(ds.map_values(|d: DepositRecordV| history_line_spec(d)), seq!['\n'])
}

pub open spec fn contact_line_spec(c: ContactRecordV) -> Seq<char> {
    c.name + ": "@ + c.phone
}

/// At most the first five contacts are listed.
pub open spec fn contacts_lines_spec(cs: Seq<ContactRecordV>) -> Seq<char> {
    let shown = if cs.len() > 5 {
        cs.take(5)
    } else {
        cs
    };
    join_with(shown.map_values(|c: ContactRecordV| contact_line_spec(c)), seq!['\n'])
}

// ---------------------------------------------------------------------------
// Rendering helpers
// ---------------------------------------------------------------------------

/// Check a candidate PIN: four to six characters, all decimal digits.
pub fn is_valid_pin(p: &str) -> (r: bool)
    ensures
        r == valid_pin(p@),
{
    let chars = str_to_chars(p);
    let n = chars.len();
    if n < 4 || n > 6 {
        return false;
    }
    let mut i: usize = 0;
    while i < n
        invariant
            i <= n,
            n == p@.len(),
            chars@ == p@,
            all_digits(p@.take(i as int)),
        decreases n - i,
    {
        proof {
            assert(p@.take(i + 1).drop_last() =~= p@.take(i as int));
            assert(p@.take(i + 1).last() == p@[i as int]);
        }
        if !is_digit_ch(chars[i]) {
            proof {
                if valid_pin(p@) {
                    lemma_all_digits_take(p@, i + 1);
                }
            }
            return false;
        }
        i += 1;
    }
    proof {
        assert(p@.take(n as int) =~= p@);
    }
    true
}

fn history_lines(ds: &Vec<DepositRecord>) -> (out: Vec<char>)
    ensures
        out@ == history_lines_spec(ds.deep_view()),
{
    let ghost lines = ds.deep_view().map_values(|d: DepositRecordV| history_line_spec(d));
    let mut out: Vec<char> = Vec::new();
    let mut i: usize = 0;
    while i < ds.len()
        invariant
            i <= ds@.len(),
            lines == ds.deep_view().map_values(|d: DepositRecordV| history_line_spec(d)),
            lines.len() == ds@.len(),
            ds.deep_view().len() == ds@.len(),
            out@ == join_with(lines.take(i as int), seq!['\n']),
        decreases ds@.len() - i,
    {
        proof {
            assert(lines.take(i + 1).drop_last() =~= lines.take(i as int));
            assert(lines.take(i + 1).last() == lines[i as int]);
            assert(ds.deep_view()[i as int] == ds@[i as int]@);
        }
        if i > 0 {
            out.push('\n');
        }
        let m = money_chars(ds[i].amount_cents);
        append_chars(&mut out, &m);
        append_str_chars(&mut out, " via ");
        append_str_chars(&mut out, ds[i].source.as_str());
        proof {
            if i == 0 {
                assert(out@ =~= join_with(lines.take(1), seq!['\n']));
            }
        }
        i += 1;
    }
    proof {
        assert(lines.take(lines.len() as int) =~= lines);
    }
    out
}

fn contact_lines(cs: &Vec<ContactRecord>) -> (out: Vec<char>)
    ensures
        out@ == contacts_lines_spec(cs.deep_view()),
{
    let shown: usize = if cs.len() > 5 {
        5
    } else {
        cs.len()
    };
    let ghost gshown = if cs.deep_view().len() > 5 {
        cs.deep_view().take(5)
    } else {
        cs.deep_view()
    };
    let ghost lines = gshown.map_values(|c: ContactRecordV| contact_line_spec(c));
    proof {
        assert(cs.deep_view().len() == cs@.len());
        assert(gshown =~= cs.deep_view().take(shown as int));
    }
    let mut out: Vec<char> = Vec::new();
    let mut i: usize = 0;
    while i < shown
        invariant
            i <= shown <= cs@.len(),
            cs.deep_view().len() == cs@.len(),
            gshown == cs.deep_view().take(shown as int),
            lines == gshown.map_values(|c: ContactRecordV| contact_line_spec(c)),
            lines.len() == shown,
            out@ == join_with(lines.take(i as int), seq!['\n']),
        decreases shown - i,
    {
        proof {
            assert(lines.take(i + 1).drop_last() =~= lines.take(i as int));
            assert(lines.take(i + 1).last() == lines[i as int]);
            assert(gshown[i as int] == cs.deep_view()[i as int]);
            assert(cs.deep_view()[i as int] == cs@[i as int]@);
        }
        if i > 0 {
            out.push('\n');
        }
        append_str_chars(&mut out, cs[i].name.as_str());
        append_str_chars(&mut out, ": ");
        append_str_chars(&mut out, cs[i].phone.as_str());
        proof {
            if i == 0 {
                assert(out@ =~= join_with(lines.take(1), seq!['\n']));
            }
        }
        i += 1;
    }
    proof {
        assert(lines.take(lines.len() as int) =~= lines);
    }
    out
}

// ---------------------------------------------------------------------------
// The executor itself
// ---------------------------------------------------------------------------

impl CommandProcessor {
    /// The help text: pure, deterministic, no collaborator calls.
    pub fn help_response(&self) -> (r: String)
        ensures
            r@ == help_text(),
    {
        String::from_str(
            "TextChain Commands:\nJOIN - Create wallet\nBALANCE - Check balance\nREDEEM <code> - Use voucher\nDEPOSIT - Get address\nSEND 10 USDC TO +91...\nSAVE <name> <phone>\nCONTACTS - List saved\nCHAIN <polygon|base>\nHELP - This message",
        )
    }

    /// The reply to unparseable input. The echo is bounded: at most the
    /// first fifteen characters of the text come back.
    pub fn unknown_response(&self, text: &str) -> (r: String)
        ensures
            r@ == unknown_reply(text@),
    {
        let n = text.unicode_len();
        if n == 0 {
            String::from_str("Welcome to TextChain!\n\nReply HELP for commands.")
        } else {
            let k: usize = if n > 15 {
                15
            } else {
                n
            };
            let prefix = text.substring_char(0, k);
            let mut r = String::from_str("Unknown: ");
            r.append(prefix);
            r.append("\n\nReply HELP for commands.");
            r
        }
    }

    /// Turn a parsed command into the first step: an immediate reply, or
    /// the first collaborator call. An invalid PIN is rejected here and
    /// never reaches the persistence collaborator; a required repository
    /// that is absent yields its fixed offline reply.
    pub fn start(&self, cmd: Command) -> (step: Step)
        ensures
            (match cmd@ {
                CommandV::Help => replies(step, help_text()),
                CommandV::Join => if self.repos.user {
                    step == Step::Ask(PendingCall::UserExists, Machine::JoinAwaitExists)
                } else {
                    replies(step, "DB offline. Try later."@)
                },
                CommandV::Balance => if self.repos.user {
                    step == Step::Ask(PendingCall::FindUser, Machine::BalanceAwaitFind)
                } else {
                    replies(step, "Balance: $0.00\nDB offline."@)
                },
                CommandV::Pin { new_pin } => match new_pin {
                    None => replies(step, "Reply: PIN <4-6 digits>\nExample: PIN 1234"@),
                    Some(p) => if !valid_pin(p) {
                        replies(step, "PIN must be 4-6 digits.\nExample: PIN 1234"@)
                    } else if self.repos.user {
                        step matches Step::Ask(
                            PendingCall::UpdatePin { pin_hash },
                            Machine::PinAwaitUpdate,
                        ) && pin_hash@ == sha256_hex_of(p)
                    } else {
                        replies(step, "PIN set!"@)
                    },
                },
                CommandV::Send { amount, token, recipient } => replies(
                    step,
                    "Send "@ + amount + " "@ + token + " to "@ + recipient
                        + "?\n\nReply CONFIRM or CANCEL"@,
                ),
                CommandV::Deposit => if self.repos.user {
                    step == Step::Ask(PendingCall::FindUser, Machine::DepositAwaitFind)
                } else {
                    replies(step, "DB offline. Reply JOIN first."@)
                },
                CommandV::History => if self.repos.deposit {
                    step == Step::Ask(PendingCall::GetRecentDeposits, Machine::HistoryAwaitRecent)
                } else {
                    replies(step, "No transactions yet.\nReply REDEEM <code> to add funds."@)
                },
                CommandV::Redeem { code } => if self.repos.user {
                    step matches Step::Ask(
                        PendingCall::UserExists,
                        Machine::RedeemAwaitExists { code: c },
                    ) && c@ == code
                } else {
                    replies(step, "DB offline. Try later."@)
                },
                CommandV::Save { name, phone } => if self.repos.address_book {
                    step matches Step::Ask(
                        PendingCall::AddContact { name: n, phone: p },
                        Machine::SaveAwaitAdd { name: n2, phone: p2 },
                    ) && n@ == name && p@ == phone && n2@ == name && p2@ == phone
                } else {
                    replies(step, "Address book offline."@)
                },
                CommandV::Contacts => if self.repos.address_book {
                    step == Step::Ask(PendingCall::ListContacts, Machine::ContactsAwaitList)
                } else {
                    replies(step, "Address book offline."@)
                },
                CommandV::SwitchChain { chain } => match crate::chain::resolve_spec(chain) {
                    Some(c) => replies(
                        step,
                        "Switched to "@ + name_spec(c) + "!\n\nChain ID: "@ + crate::text::dec_str(
                            chain_id_spec(c) as int,
                        ) + "\nNative: "@ + native_token_spec(c),
                    ),
                    None => replies(
                        step,
                        "Unknown chain: "@ + chain + "\n\nAvailable: polygon, base, eth, arb"@,
                    ),
                },
                CommandV::Unknown(t) => replies(step, unknown_reply(t)),
            }),
    {
        match cmd {
            Command::Help => Step::Reply(self.help_response()),
            Command::Join => {
                if self.repos.user {
                    Step::Ask(PendingCall::UserExists, Machine::JoinAwaitExists)
                } else {
                    Step::Reply(String::from_str("DB offline. Try later."))
                }
            },
            Command::Balance => {
                if self.repos.user {
                    Step::Ask(PendingCall::FindUser, Machine::BalanceAwaitFind)
                } else {
                    Step::Reply(String::from_str("Balance: $0.00\nDB offline."))
                }
            },
            Command::Pin { new_pin } => match new_pin {
                None => Step::Reply(String::from_str("Reply: PIN <4-6 digits>\nExample: PIN 1234")),
                Some(pin) => {
                    if !is_valid_pin(pin.as_str()) {
                        Step::Reply(String::from_str("PIN must be 4-6 digits.\nExample: PIN 1234"))
                    } else if self.repos.user {
                        let h = sha256_hex(pin.as_str());
                        Step::Ask(PendingCall::UpdatePin { pin_hash: h }, Machine::PinAwaitUpdate)
                    } else {
                        Step::Reply(String::from_str("PIN set!"))
                    }
                },
            },
            Command::Send { amount, token, recipient } => {
                let mut s = String::from_str("Send ");
                s.append(amount.as_str());
                s.append(" ");
                s.append(token.as_str());
                s.append(" to ");
                s.append(recipient.as_str());
                s.append("?\n\nReply CONFIRM or CANCEL");
                Step::Reply(s)
            },
            Command::Deposit => {
                if self.repos.user {
                    Step::Ask(PendingCall::FindUser, Machine::DepositAwaitFind)
                } else {
                    Step::Reply(String::from_str("DB offline. Reply JOIN first."))
                }
            },
            Command::History => {
                if self.repos.deposit {
                    Step::Ask(PendingCall::GetRecentDeposits, Machine::HistoryAwaitRecent)
                } else {
                    Step::Reply(String::from_str(
                        "No transactions yet.\nReply REDEEM <code> to add funds.",
                    ))
                }
            },
            Command::Redeem { code } => {
                if self.repos.user {
                    Step::Ask(PendingCall::UserExists, Machine::RedeemAwaitExists { code })
                } else {
                    Step::Reply(String::from_str("DB offline. Try later."))
                }
            },
            Command::Save { name, phone } => {
                if self.repos.address_book {
                    let n2 = name.clone();
                    let p2 = phone.clone();
                    Step::Ask(
                        PendingCall::AddContact { name, phone },
                        Machine::SaveAwaitAdd { name: n2, phone: p2 },
                    )
                } else {
                    Step::Reply(String::from_str("Address book offline."))
                }
            },
            Command::Contacts => {
                if self.repos.address_book {
                    Step::Ask(PendingCall::ListContacts, Machine::ContactsAwaitList)
                } else {
                    Step::Reply(String::from_str("Address book offline."))
                }
            },
            Command::SwitchChain { chain } => match Chain::from_input(chain.as_str()) {
                Some(c) => {
                    let mut out: Vec<char> = Vec::new();
                    append_str_chars(&mut out, "Switched to ");
                    let name = c.name();
                    append_str_chars(&mut out, name.as_str());
                    append_str_chars(&mut out, "!\n\nChain ID: ");
                    let id = u64_dec_chars(c.chain_id());
                    append_chars(&mut out, &id);
                    append_str_chars(&mut out, "\nNative: ");
                    let sym = c.native_token();
                    append_str_chars(&mut out, sym.as_str());
                    Step::Reply(chars_to_string(&out))
                },
                None => {
                    let mut s = String::from_str("Unknown chain: ");
                    s.append(chain.as_str());
                    s.append("\n\nAvailable: polygon, base, eth, arb");
                    Step::Reply(s)
                },
            },
            Command::Unknown(t) => Step::Reply(self.unknown_response(t.as_str())),
        }
    }

    /// Resume after a collaborator call: from the awaited state and the
    /// call's outcome to the next step. Joining twice is idempotent: an
    /// existing record yields the welcome-back reply and no further call,
    /// so no second wallet is ever created. A redeemed voucher is spent
    /// even if recording the deposit fails: the success reply does not
    /// change. A mismatched outcome yields the generic error reply.
    pub fn resume(&self, m: Machine, r: CallResult) -> (step: Step)
        ensures
            (match m {
                Machine::JoinAwaitExists => match r {
                    CallResult::UserExists(Ok(true)) => replies(
                        step,
                        "Welcome back!\n\nReply BALANCE or DEPOSIT"@,
                    ),
                    CallResult::UserExists(Ok(false)) => step == Step::Ask(
                        PendingCall::CreateWallet,
                        Machine::JoinAwaitWallet,
                    ),
                    _ => replies(step, "Error. Try later."@),
                },
                Machine::JoinAwaitWallet => match r {
                    CallResult::CreateWallet(Ok(w)) => step matches Step::Ask(
                        PendingCall::PersistUser { wallet_address, encrypted_key },
                        Machine::JoinAwaitPersist { wallet_address: a2 },
                    ) && wallet_address@ == w@.address && a2@ == w@.address && encrypted_key@
                        == hex_of(w@.private_key),
                    CallResult::CreateWallet(Err(())) => replies(step, "Error creating wallet."@),
                    _ => replies(step, "Error. Try later."@),
                },
                Machine::JoinAwaitPersist { wallet_address } => match r {
                    CallResult::PersistUser(Ok(())) => replies(
                        step,
                        "Wallet created!\n\n"@ + wallet_address@
                            + "\n\nReply DEPOSIT to fund it."@,
                    ),
                    CallResult::PersistUser(Err(())) => replies(step, "Error saving wallet."@),
                    _ => replies(step, "Error. Try later."@),
                },
                Machine::BalanceAwaitFind => match r {
                    CallResult::FindUser(Ok(Some(u))) => if wallet_key_ok(
                        u@.encrypted_private_key,
                    ) {
                        step matches Step::Ask(
                            PendingCall::ReconstructWallet { key },
                            Machine::BalanceAwaitWallet,
                        ) && key@ == hex_bytes_of(u@.encrypted_private_key)
                    } else {
                        replies(step, "Error reading wallet."@)
                    },
                    CallResult::FindUser(Ok(None)) => replies(step, "No wallet. Reply JOIN first."@),
                    CallResult::FindUser(Err(())) => replies(step, "Error. Try later."@),
                    _ => replies(step, "Error. Try later."@),
                },
                Machine::BalanceAwaitWallet => match r {
                    CallResult::ReconstructWallet(Ok(addr)) => step matches Step::Ask(
                        PendingCall::QueryAllBalances { address },
                        Machine::BalanceAwaitQueries,
                    ) && address@ == addr@,
                    CallResult::ReconstructWallet(Err(())) => replies(
                        step,
                        "Error loading wallet."@,
                    ),
                    _ => replies(step, "Error. Try later."@),
                },
                Machine::BalanceAwaitQueries => match r {
                    CallResult::QueryAllBalances(results) => if aggregate_spec(results@).len()
                        == 0 {
                        replies(step, "Balance: $0.00\n\nReply DEPOSIT to fund wallet."@)
                    } else {
                        replies(
                            step,
                            "Balances:\n"@ + balance_lines_spec(aggregate_spec(results@))
                                + "\n\nReply DEPOSIT for address."@,
                        )
                    },
                    _ => replies(step, "Error. Try later."@),
                },
                Machine::PinAwaitUpdate => match r {
                    CallResult::UpdatePin(_) => replies(step, "PIN set!"@),
                    _ => replies(step, "Error. Try later."@),
                },
                Machine::DepositAwaitFind => match r {
                    CallResult::FindUser(Ok(Some(u))) => replies(
                        step,
                        "Deposit MATIC to:\n"@ + u@.wallet_address + "\n\nPolygon Amoy testnet"@,
                    ),
                    CallResult::FindUser(Ok(None)) => replies(step, "No wallet. Reply JOIN first."@),
                    CallResult::FindUser(Err(())) => replies(step, "Error. Try later."@),
                    _ => replies(step, "Error. Try later."@),
                },
                Machine::HistoryAwaitRecent => match r {
                    CallResult::GetRecentDeposits(Ok(ds)) => if ds@.len() > 0 {
                        replies(step, "Recent deposits:\n"@ + history_lines_spec(ds.deep_view()))
                    } else {
                        replies(
                            step,
                            "No transactions yet.\nReply REDEEM <code> to add funds."@,
                        )
                    },
                    CallResult::GetRecentDeposits(Err(())) => replies(
                        step,
                        "No transactions yet.\nReply REDEEM <code> to add funds."@,
                    ),
                    _ => replies(step, "Error. Try later."@),
                },
                Machine::RedeemAwaitExists { code } => match r {
                    CallResult::UserExists(Ok(true)) => if !self.repos.voucher {
                        replies(step, "Voucher system offline."@)
                    } else if !self.repos.deposit {
                        replies(step, "Deposit system offline."@)
                    } else {
                        step matches Step::Ask(
                            PendingCall::RedeemVoucher { code: c },
                            Machine::RedeemAwaitRedeem { code: c2 },
                        ) && c@ == code@ && c2@ == code@
                    },
                    CallResult::UserExists(Ok(false)) => replies(
                        step,
                        "No wallet. Reply JOIN first."@,
                    ),
                    CallResult::UserExists(Err(())) => replies(step, "Error. Try later."@),
                    _ => replies(step, "Error. Try later."@),
                },
                Machine::RedeemAwaitRedeem { code } => match r {
                    CallResult::RedeemVoucher(Ok(v)) => step matches Step::Ask(
                        PendingCall::RecordVoucherDeposit { amount_cents, code: c },
                        Machine::RedeemAwaitRecord { usdc_cents },
                    ) && amount_cents == v.usdc_cents && c@ == code@ && usdc_cents == v.usdc_cents,
                    CallResult::RedeemVoucher(Err(e)) => replies(step, voucher_error_reply(e)),
                    _ => replies(step, "Error. Try later."@),
                },
                Machine::RedeemAwaitRecord { usdc_cents } => match r {
                    CallResult::RecordVoucherDeposit(_) => replies(
                        step,
                        "Voucher redeemed!\n\n"@ + money_str(usdc_cents as int)
                            + " USDC credited.\n\nReply BALANCE to check."@,
                    ),
                    _ => replies(step, "Error. Try later."@),
                },
                Machine::SaveAwaitAdd { name, phone } => match r {
                    CallResult::AddContact(Ok(())) => replies(
                        step,
                        "Saved "@ + phone@ + " as "@ + name@ + "."@,
                    ),
                    CallResult::AddContact(Err(())) => replies(step, "Error saving contact."@),
                    _ => replies(step, "Error. Try later."@),
                },
                Machine::ContactsAwaitList => match r {
                    CallResult::ListContacts(Ok(cs)) => if cs@.len() == 0 {
                        replies(step, "No contacts yet.\n\nSAVE <name> <phone>"@)
                    } else {
                        replies(step, "Contacts:\n"@ + contacts_lines_spec(cs.deep_view()))
                    },
                    CallResult::ListContacts(Err(())) => replies(step, "Error loading contacts."@),
                    _ => replies(step, "Error. Try later."@),
                },
            }),
    {
        match (m, r) {
            (Machine::JoinAwaitExists, CallResult::UserExists(res)) => match res {
                Ok(true) => Step::Reply(String::from_str("Welcome back!\n\nReply BALANCE or DEPOSIT")),
                Ok(false) => Step::Ask(PendingCall::CreateWallet, Machine::JoinAwaitWallet),
                Err(()) => Step::Reply(String::from_str("Error. Try later.")),
            },
            (Machine::JoinAwaitWallet, CallResult::CreateWallet(res)) => match res {
                Ok(w) => {
                    let encoded = hex_encode(&w.private_key);
                    let a2 = w.address.clone();
                    Step::Ask(
                        PendingCall::PersistUser {
                            wallet_address: w.address,
                            encrypted_key: encoded,
                        },
                        Machine::JoinAwaitPersist { wallet_address: a2 },
                    )
                },
                Err(()) => Step::Reply(String::from_str("Error creating wallet.")),
            },
            (Machine::JoinAwaitPersist { wallet_address }, CallResult::PersistUser(res)) => match res {
                Ok(()) => {
                    let mut s = String::from_str("Wallet created!\n\n");
                    s.append(wallet_address.as_str());
                    s.append("\n\nReply DEPOSIT to fund it.");
                    Step::Reply(s)
                },
                Err(()) => Step::Reply(String::from_str("Error saving wallet.")),
            },
            (Machine::BalanceAwaitFind, CallResult::FindUser(res)) => match res {
                Ok(Some(u)) => match hex_decode(u.encrypted_private_key.as_str()) {
                    Ok(bytes) => {
                        proof {
                            lemma_hex_bytes_len(u.encrypted_private_key@);
                        }
                        if bytes.len() == 32 {
                            Step::Ask(
                                PendingCall::ReconstructWallet { key: bytes },
                                Machine::BalanceAwaitWallet,
                            )
                        } else {
                            Step::Reply(String::from_str("Error reading wallet."))
                        }
                    },
                    Err(_) => Step::Reply(String::from_str("Error reading wallet.")),
                },
                Ok(None) => Step::Reply(String::from_str("No wallet. Reply JOIN first.")),
                Err(()) => Step::Reply(String::from_str("Error. Try later.")),
            },
            (Machine::BalanceAwaitWallet, CallResult::ReconstructWallet(res)) => match res {
                Ok(addr) => Step::Ask(
                    PendingCall::QueryAllBalances { address: addr },
                    Machine::BalanceAwaitQueries,
                ),
                Err(()) => Step::Reply(String::from_str("Error loading wallet.")),
            },
            (Machine::BalanceAwaitQueries, CallResult::QueryAllBalances(results)) => {
                let agg = aggregate(&results);
                if agg.len() == 0 {
                    Step::Reply(String::from_str("Balance: $0.00\n\nReply DEPOSIT to fund wallet."))
                } else {
                    let lines = balance_lines(&agg);
                    let mut s = String::from_str("Balances:\n");
                    let body = chars_to_string(&lines);
                    s.append(body.as_str());
                    s.append("\n\nReply DEPOSIT for address.");
                    Step::Reply(s)
                }
            },
            (Machine::PinAwaitUpdate, CallResult::UpdatePin(_)) => Step::Reply(
                String::from_str("PIN set!"),
            ),
            (Machine::DepositAwaitFind, CallResult::FindUser(res)) => match res {
                Ok(Some(u)) => {
                    let mut s = String::from_str("Deposit MATIC to:\n");
                    s.append(u.wallet_address.as_str());
                    s.append("\n\nPolygon Amoy testnet");
                    Step::Reply(s)
                },
                Ok(None) => Step::Reply(String::from_str("No wallet. Reply JOIN first.")),
                Err(()) => Step::Reply(String::from_str("Error. Try later.")),
            },
            (Machine::HistoryAwaitRecent, CallResult::GetRecentDeposits(res)) => match res {
                Ok(ds) => {
                    if ds.len() > 0 {
                        let lines = history_lines(&ds);
                        let mut s = String::from_str("Recent deposits:\n");
                        let body = chars_to_string(&lines);
                        s.append(body.as_str());
                        Step::Reply(s)
                    } else {
                        Step::Reply(String::from_str(
                            "No transactions yet.\nReply REDEEM <code> to add funds.",
                        ))
                    }
                },
                Err(()) => Step::Reply(String::from_str(
                    "No transactions yet.\nReply REDEEM <code> to add funds.",
                )),
            },
            (Machine::RedeemAwaitExists { code }, CallResult::UserExists(res)) => match res {
                Ok(true) => {
                    if !self.repos.voucher {
                        Step::Reply(String::from_str("Voucher system offline."))
                    } else if !self.repos.deposit {
                        Step::Reply(String::from_str("Deposit system offline."))
                    } else {
                        let c2 = code.clone();
                        Step::Ask(
                            PendingCall::RedeemVoucher { code },
                            Machine::RedeemAwaitRedeem { code: c2 },
                        )
                    }
                },
                Ok(false) => Step::Reply(String::from_str("No wallet. Reply JOIN first.")),
                Err(()) => Step::Reply(String::from_str("Error. Try later.")),
            },
            (Machine::RedeemAwaitRedeem { code }, CallResult::RedeemVoucher(res)) => match res {
                Ok(v) => Step::Ask(
                    PendingCall::RecordVoucherDeposit { amount_cents: v.usdc_cents, code },
                    Machine::RedeemAwaitRecord { usdc_cents: v.usdc_cents },
                ),
                Err(e) => match e {
                    VoucherError::NotFound => Step::Reply(String::from_str("Invalid voucher code.")),
                    VoucherError::AlreadyRedeemed => Step::Reply(
                        String::from_str("Voucher already used."),
                    ),
                    VoucherError::Expired => Step::Reply(String::from_str("Voucher has expired.")),
                    VoucherError::DatabaseError => Step::Reply(String::from_str("Error. Try later.")),
                },
            },
            (Machine::RedeemAwaitRecord { usdc_cents }, CallResult::RecordVoucherDeposit(_)) => {
                let mut out: Vec<char> = Vec::new();
                append_str_chars(&mut out, "Voucher redeemed!\n\n");
                let m = money_chars(usdc_cents);
                append_chars(&mut out, &m);
                append_str_chars(&mut out, " USDC credited.\n\nReply BALANCE to check.");
                Step::Reply(chars_to_string(&out))
            },
            (Machine::SaveAwaitAdd { name, phone }, CallResult::AddContact(res)) => match res {
                Ok(()) => {
                    let mut s = String::from_str("Saved ");
                    s.append(phone.as_str());
                    s.append(" as ");
                    s.append(name.as_str());
                    s.append(".");
                    Step::Reply(s)
                },
                Err(()) => Step::Reply(String::from_str("Error saving contact.")),
            },
            (Machine::ContactsAwaitList, CallResult::ListContacts(res)) => match res {
                Ok(cs) => {
                    if cs.len() == 0 {
                        Step::Reply(String::from_str("No contacts yet.\n\nSAVE <name> <phone>"))
                    } else {
                        let lines = contact_lines(&cs);
                        let mut s = String::from_str("Contacts:\n");
                        let body = chars_to_string(&lines);
                        s.append(body.as_str());
                        Step::Reply(s)
                    }
                },
                Err(()) => Step::Reply(String::from_str("Error loading contacts.")),
            },
            _ => Step::Reply(String::from_str("Error. Try later.")),
        }
    }
}

} // verus!
