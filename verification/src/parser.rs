//! The command parser: a pure, total function from free-form text to a typed
//! `Command`. Normalization trims surrounding whitespace, upper-cases the
//! text (ASCII), and splits it on runs of whitespace; dispatch is on the
//! first token, with synonyms folded to one command.

use vstd::prelude::*;
use crate::command::{Command, CommandV};
use crate::text::{
    all_digit_or_dot, chars_to_string, count_dots, count_digits, eq_str, is_decimal, is_digit,
    is_digit_ch, join_from, join_with, lemma_all_digit_or_dot_take, str_to_chars, tokenize,
    tokens_of, trim, trim_vec, upper_all, upper_all_vec,
};

verus! {

/// Which collaborator repositories are wired in. The executor only ever
/// reads presence; the repositories themselves live outside the core.
#[derive(Debug, Clone, Copy)]
pub struct RepoPresence {
    pub user: bool,
    pub voucher: bool,
    pub deposit: bool,
    pub address_book: bool,
}

/// Command processor that parses commands and decides, step by step, what
/// the driver must ask its collaborators and what to reply.
#[derive(Debug, Clone)]
pub struct CommandProcessor {
    pub repos: RepoPresence,
}

/// First index `i >= from` with `toks[i] == "TO"`, or -1 if none.
pub open spec fn find_to_from(toks: Seq<Seq<char>>, from: int) -> int
    decreases toks.len() - from,
{
    if from < 0 || from >= toks.len() {
        -1
    } else if toks[from] == "TO"@ {
        from
    } else {
        find_to_from(toks, from + 1)
    }
}

/// SEND grammar: `SEND <amount> <token> TO <recipient...>`, at least five
/// tokens, a decimal amount, and the literal `TO` after the token symbol
/// with at least one token following it.
pub open spec fn parse_send_spec(toks: Seq<Seq<char>>) -> CommandV {
    if toks.len() < 5 {
        CommandV::Unknown("Invalid SEND format. Use: SEND <amount> <token> TO <phone>"@)
    } else if !is_decimal(toks[1]) {
        CommandV::Unknown("Invalid amount"@)
    } else {
        let ti = find_to_from(toks, 3);
        if ti < 0 || ti + 1 >= toks.len() {
            CommandV::Unknown("Missing recipient. Use: SEND <amount> <token> TO <phone>"@)
        } else {
            CommandV::Send {
                amount: toks[1],
                token: toks[2],
                recipient: join_with(toks.skip(ti + 1), seq![' ']),
            }
        }
    }
}

/// SAVE grammar: `SAVE <name> <phone...>`, at least three tokens; everything
/// from the third token on is joined into the phone field.
pub open spec fn parse_save_spec(toks: Seq<Seq<char>>) -> CommandV {
    if toks.len() < 3 {
        CommandV::Unknown("Usage: SAVE <name> <phone>"@)
    } else {
        CommandV::Save { name: toks[1], phone: join_with(toks.skip(2), seq![' ']) }
    }
}

/// What `parse` returns on any input: normalize, tokenize, dispatch on the
/// first token.
pub open spec fn parse_spec(raw: Seq<char>) -> CommandV {
    let text = trim(upper_all(raw));
    let toks = tokens_of(text);
    if toks.len() == 0 {
        CommandV::Unknown(text)
    } else if toks[0] == "HELP"@ || toks[0] == "?"@ || toks[0] == "COMMANDS"@ {
        CommandV::Help
    } else if toks[0] == "JOIN"@ || toks[0] == "START"@ || toks[0] == "REGISTER"@ {
        CommandV::Join
    } else if toks[0] == "BALANCE"@ || toks[0] == "BAL"@ {
        CommandV::Balance
    } else if toks[0] == "PIN"@ {
        CommandV::Pin { new_pin: if toks.len() >= 2 { Some(toks[1]) } else { None } }
    } else if toks[0] == "SEND"@ {
        parse_send_spec(toks)
    } else if toks[0] == "DEPOSIT"@ || toks[0] == "RECEIVE"@ {
        CommandV::Deposit
    } else if toks[0] == "HISTORY"@ || toks[0] == "TRANSACTIONS"@ || toks[0] == "TXS"@ {
        CommandV::History
    } else if toks[0] == "REDEEM"@ || toks[0] == "VOUCHER"@ || toks[0] == "CODE"@ {
        if toks.len() < 2 {
            CommandV::Unknown("Usage: REDEEM <code>"@)
        } else {
            CommandV::Redeem { code: toks[1] }
        }
    } else if toks[0] == "SAVE"@ || toks[0] == "ADD"@ {
        parse_save_spec(toks)
    } else if toks[0] == "CONTACTS"@ || toks[0] == "BOOK"@ {
        CommandV::Contacts
    } else if toks[0] == "CHAIN"@ || toks[0] == "NETWORK"@ {
        if toks.len() < 2 {
            CommandV::Unknown("Usage: CHAIN <polygon|base|eth|arb>"@)
        } else {
            CommandV::SwitchChain { chain: toks[1] }
        }
    } else {
        CommandV::Unknown(text)
    }
}

impl CommandProcessor {
    /// Create a processor with only the user repository (possibly absent).
    pub fn new(user_repo: bool) -> (p: CommandProcessor)
        ensures
            p.repos.user == user_repo,
            !p.repos.voucher,
            !p.repos.deposit,
            !p.repos.address_book,
    {
        CommandProcessor {
            repos: RepoPresence { user: user_repo, voucher: false, deposit: false, address_book: false },
        }
    }

    /// Create a processor with all repositories' presence given.
    pub fn with_repos(
        user_repo: bool,
        voucher_repo: bool,
        deposit_repo: bool,
        address_book_repo: bool,
    ) -> (p: CommandProcessor)
        ensures
            p.repos.user == user_repo,
            p.repos.voucher == voucher_repo,
            p.repos.deposit == deposit_repo,
            p.repos.address_book == address_book_repo,
    {
        CommandProcessor {
            repos: RepoPresence {
                user: user_repo,
                voucher: voucher_repo,
                deposit: deposit_repo,
                address_book: address_book_repo,
            },
        }
    }

    /// Parse SMS text into a structured command. Pure and total: every
    /// input, including empty or whitespace-only text, yields exactly one
    /// command and no fault.
    pub fn parse(&self, text: &str) -> (cmd: Command)
        ensures
            cmd@ == parse_spec(text@),
    {
        let chars = str_to_chars(text);
        let up = upper_all_vec(&chars);
        let t = trim_vec(&up);
        let toks = tokenize(&t);
        let ghost gtoks = tokens_of(trim(upper_all(text@)));
        proof {
            assert(toks.deep_view() == gtoks);
        }
        if toks.len() == 0 {
            return Command::Unknown(chars_to_string(&t));
        }
        proof {
            assert(gtoks[0] =~= toks@[0]@);
            assert(forall|j: int| 0 <= j < gtoks.len() ==> gtoks[j] =~= #[trigger] toks@[j]@);
        }
        let head = &toks[0];
        if eq_str(head, "HELP") || eq_str(head, "?") || eq_str(head, "COMMANDS") {
            Command::Help
        } else if eq_str(head, "JOIN") || eq_str(head, "START") || eq_str(head, "REGISTER") {
            Command::Join
        } else if eq_str(head, "BALANCE") || eq_str(head, "BAL") {
            Command::Balance
        } else if eq_str(head, "PIN") {
            let new_pin = if toks.len() >= 2 {
                Some(chars_to_string(&toks[1]))
            } else {
                None
            };
            Command::Pin { new_pin }
        } else if eq_str(head, "SEND") {
            self.parse_send(&toks)
        } else if eq_str(head, "DEPOSIT") || eq_str(head, "RECEIVE") {
            Command::Deposit
        } else if eq_str(head, "HISTORY") || eq_str(head, "TRANSACTIONS") || eq_str(head, "TXS") {
            Command::History
        } else if eq_str(head, "REDEEM") || eq_str(head, "VOUCHER") || eq_str(head, "CODE") {
            if toks.len() < 2 {
                Command::Unknown(String::from_str("Usage: REDEEM <code>"))
            } else {
                Command::Redeem { code: chars_to_string(&toks[1]) }
            }
        } else if eq_str(head, "SAVE") || eq_str(head, "ADD") {
            self.parse_save(&toks)
        } else if eq_str(head, "CONTACTS") || eq_str(head, "BOOK") {
            Command::Contacts
        } else if eq_str(head, "CHAIN") || eq_str(head, "NETWORK") {
            if toks.len() < 2 {
                Command::Unknown(String::from_str("Usage: CHAIN <polygon|base|eth|arb>"))
            } else {
                Command::SwitchChain { chain: chars_to_string(&toks[1]) }
            }
        } else {
            Command::Unknown(chars_to_string(&t))
        }
    }

    /// Parse the SEND command's argument list.
    fn parse_send(&self, toks: &Vec<Vec<char>>) -> (cmd: Command)
        ensures
            cmd@ == parse_send_spec(toks.deep_view()),
    {
        let ghost gtoks = toks.deep_view();
        proof {
            assert(forall|j: int| 0 <= j < gtoks.len() ==> gtoks[j] =~= #[trigger] toks@[j]@);
        }
        if toks.len() < 5 {
            return Command::Unknown(String::from_str(
                "Invalid SEND format. Use: SEND <amount> <token> TO <phone>",
            ));
        }
        if !is_decimal_vec(&toks[1]) {
            return Command::Unknown(String::from_str("Invalid amount"));
        }
        let mut i: usize = 3;
        let mut found: bool = false;
        while i < toks.len() && !found
            invariant
                3 <= i <= toks@.len(),
                gtoks == toks.deep_view(),
                gtoks.len() == toks@.len(),
                forall|j: int| 0 <= j < gtoks.len() ==> gtoks[j] =~= #[trigger] toks@[j]@,
                !found ==> find_to_from(gtoks, 3) == find_to_from(gtoks, i as int),
                found ==> find_to_from(gtoks, 3) == i && i < toks@.len() && gtoks[i as int]
                    == "TO"@,
            decreases toks@.len() - i + (if found { 0int } else { 1int }),
        {
            if eq_str(&toks[i], "TO") {
                found = true;
            } else {
                i += 1;
            }
        }
        if !found || i + 1 >= toks.len() {
            return Command::Unknown(String::from_str(
                "Missing recipient. Use: SEND <amount> <token> TO <phone>",
            ));
        }
        let recipient = join_from(toks, i + 1);
        proof {
            assert(toks.deep_view().skip(i + 1) == gtoks.skip(i + 1));
        }
        Command::Send {
            amount: chars_to_string(&toks[1]),
            token: chars_to_string(&toks[2]),
            recipient: chars_to_string(&recipient),
        }
    }

    /// Parse the SAVE command's argument list.
    fn parse_save(&self, toks: &Vec<Vec<char>>) -> (cmd: Command)
        ensures
            cmd@ == parse_save_spec(toks.deep_view()),
    {
        let ghost gtoks = toks.deep_view();
        proof {
            assert(forall|j: int| 0 <= j < gtoks.len() ==> gtoks[j] =~= #[trigger] toks@[j]@);
        }
        if toks.len() < 3 {
            return Command::Unknown(String::from_str("Usage: SAVE <name> <phone>"));
        }
        let phone = join_from(toks, 2);
        Command::Save {
            name: chars_to_string(&toks[1]),
            phone: chars_to_string(&phone),
        }
    }
}

/// Check whether a token is a decimal literal: an optional sign, then digits
/// with at most one decimal point and at least one digit.
pub fn is_decimal_vec(tok: &Vec<char>) -> (r: bool)
    ensures
        r == is_decimal(tok@),
{
    let n = tok.len();
    if n == 0 {
        return false;
    }
    let signed = tok[0] == '+' || tok[0] == '-';
    let start: usize = if signed { 1 } else { 0 };
    if start == n {
        return false;
    }
    let ghost body = if signed { tok@.skip(1) } else { tok@ };
    let mut dots: u64 = 0;
    let mut digits: u64 = 0;
    let mut i: usize = start;
    while i < n
        invariant
            start <= i <= n,
            n == tok@.len(),
            signed == (tok@[0] == '+' || tok@[0] == '-'),
            start == if signed { 1int } else { 0int },
            body == if signed { tok@.skip(1) } else { tok@ },
            dots == count_dots(body.take(i - start)),
            digits == count_digits(body.take(i - start)),
            dots <= i,
            digits <= i,
            all_digit_or_dot(body.take(i - start)),
        decreases n - i,
    {
        let c = tok[i];
        proof {
            let k = i - start;
            assert(body.take(k + 1).drop_last() =~= body.take(k));
            assert(body.take(k + 1).last() == body[k]);
            assert(body[k] == tok@[i as int]);
        }
        if c == '.' {
            dots += 1;
        } else if is_digit_ch(c) {
            digits += 1;
        } else {
            proof {
                let k = i - start;
                if is_decimal(tok@) {
                    assert(all_digit_or_dot(body));
                    lemma_all_digit_or_dot_take(body, k + 1);
                }
            }
            return false;
        }
        i += 1;
    }
    proof {
        assert(body.take(n - start) =~= body);
    }
    dots <= 1 && digits >= 1
}

/// The parser decides by the upper-cased text alone: any two inputs whose
/// upper-casings agree parse to the same command. In particular `help`,
/// `HELP` and `HeLp` all parse to `Help`.
pub proof fn lemma_parse_case_insensitive(s: Seq<char>, t: Seq<char>)
    requires
        upper_all(s) == upper_all(t),
    ensures
        parse_spec(s) == parse_spec(t),
{
}

/// Upper-casing is idempotent, so every input parses like its upper-cased
/// form: `parse(s) == parse(uppercase(s))`.
pub proof fn lemma_parse_of_upper(s: Seq<char>)
    ensures
        parse_spec(upper_all(s)) == parse_spec(s),
{
    assert forall|i: int| 0 <= i < s.len() implies crate::text::to_upper(
        upper_all(s)[i],
    ) == crate::text::to_upper(s[i]) by {
        let c = s[i];
        if 97 <= c as u32 && c as u32 <= 122 {
            assert(crate::text::to_upper(crate::text::to_upper(c)) == crate::text::to_upper(c));
        }
    }
    assert(upper_all(upper_all(s)) =~= upper_all(s));
    lemma_parse_case_insensitive(upper_all(s), s);
}

} // verus!
