use sms_request_handler::command::Command;
use sms_request_handler::executor::{
    CallResult, ContactRecord, DepositRecord, Machine, NewWallet, PendingCall, RedeemedVoucher,
    Step, UserRecord, VoucherError,
};
use sms_request_handler::parser::CommandProcessor;

fn full_processor() -> CommandProcessor {
    CommandProcessor::with_repos(true, true, true, true)
}

fn reply_text(step: Step) -> String {
    match step {
        Step::Reply(t) => t,
        Step::Ask(_, _) => panic!("expected a reply, got a collaborator call"),
    }
}

#[test]
fn help_is_pure_and_static() {
    let p = CommandProcessor::new(false);
    let step = p.start(Command::Help);
    let t = reply_text(step);
    assert!(t.starts_with("TextChain Commands:\nJOIN - Create wallet"));
    assert!(t.ends_with("HELP - This message"));
}

#[test]
fn join_twice_is_idempotent() {
    let p = full_processor();
    // First call for a fresh identity walks through wallet creation.
    let step = p.start(Command::Join);
    assert!(matches!(step, Step::Ask(PendingCall::UserExists, Machine::JoinAwaitExists)));
    // Second call: the record exists, so the executor replies at once and
    // asks for no further call — no second wallet record can be created.
    let step2 = p.resume(Machine::JoinAwaitExists, CallResult::UserExists(Ok(true)));
    assert_eq!(reply_text(step2), "Welcome back!\n\nReply BALANCE or DEPOSIT");
}

#[test]
fn join_creates_wallet_and_hex_encodes_key() {
    let p = full_processor();
    let step = p.resume(Machine::JoinAwaitExists, CallResult::UserExists(Ok(false)));
    assert!(matches!(step, Step::Ask(PendingCall::CreateWallet, Machine::JoinAwaitWallet)));
    let wallet = NewWallet {
        address: "0xAB01".to_string(),
        private_key: vec![0x00, 0x1f, 0xa0],
    };
    let step = p.resume(Machine::JoinAwaitWallet, CallResult::CreateWallet(Ok(wallet)));
    match step {
        Step::Ask(
            PendingCall::PersistUser { wallet_address, encrypted_key },
            Machine::JoinAwaitPersist { wallet_address: a2 },
        ) => {
            assert_eq!(wallet_address, "0xAB01");
            assert_eq!(a2, "0xAB01");
            // hex::encode really ran: the key is not handed back unchanged.
            assert_eq!(encrypted_key, "001fa0");
        }
        _ => panic!("expected the persist call"),
    }
    let step = p.resume(
        Machine::JoinAwaitPersist { wallet_address: "0xAB01".to_string() },
        CallResult::PersistUser(Ok(())),
    );
    assert_eq!(reply_text(step), "Wallet created!\n\n0xAB01\n\nReply DEPOSIT to fund it.");
    let step = p.resume(
        Machine::JoinAwaitPersist { wallet_address: "0xAB01".to_string() },
        CallResult::PersistUser(Err(())),
    );
    assert_eq!(reply_text(step), "Error saving wallet.");
}

#[test]
fn join_offline_and_errors() {
    let p = CommandProcessor::new(false);
    assert_eq!(reply_text(p.start(Command::Join)), "DB offline. Try later.");
    let p = full_processor();
    let step = p.resume(Machine::JoinAwaitExists, CallResult::UserExists(Err(())));
    assert_eq!(reply_text(step), "Error. Try later.");
    let step = p.resume(Machine::JoinAwaitWallet, CallResult::CreateWallet(Err(())));
    assert_eq!(reply_text(step), "Error creating wallet.");
}

#[test]
fn pin_without_argument_gives_usage() {
    let p = full_processor();
    let step = p.start(Command::Pin { new_pin: None });
    assert_eq!(reply_text(step), "Reply: PIN <4-6 digits>\nExample: PIN 1234");
}

#[test]
fn invalid_pin_never_reaches_persistence() {
    let p = full_processor();
    for bad in ["12", "abcd", "1234567", "12a4"] {
        let step = p.start(Command::Pin { new_pin: Some(bad.to_string()) });
        // A reply, not a collaborator call: storage is never touched.
        assert_eq!(reply_text(step), "PIN must be 4-6 digits.\nExample: PIN 1234");
    }
}

#[test]
fn valid_pin_is_hashed_before_storage() {
    let p = full_processor();
    let step = p.start(Command::Pin { new_pin: Some("1234".to_string()) });
    match step {
        Step::Ask(PendingCall::UpdatePin { pin_hash }, Machine::PinAwaitUpdate) => {
            assert_eq!(
                pin_hash,
                "03ac674216f3e15c761ee1a5e255f067953623c8b388b4459e13f978d7c846f4"
            );
        }
        _ => panic!("expected the update-pin call"),
    }
    // Fire-and-forget: the user is told "PIN set!" whatever storage said.
    let ok = p.resume(Machine::PinAwaitUpdate, CallResult::UpdatePin(Ok(())));
    assert_eq!(reply_text(ok), "PIN set!");
    let err = p.resume(Machine::PinAwaitUpdate, CallResult::UpdatePin(Err(())));
    assert_eq!(reply_text(err), "PIN set!");
}

#[test]
fn send_is_advisory_only() {
    let p = full_processor();
    let step = p.start(Command::Send {
        amount: "10".to_string(),
        token: "USDC".to_string(),
        recipient: "+917123456789".to_string(),
    });
    assert_eq!(
        reply_text(step),
        "Send 10 USDC to +917123456789?\n\nReply CONFIRM or CANCEL"
    );
}

#[test]
fn deposit_branches() {
    let p = CommandProcessor::new(false);
    assert_eq!(reply_text(p.start(Command::Deposit)), "DB offline. Reply JOIN first.");
    let p = full_processor();
    let step = p.start(Command::Deposit);
    assert!(matches!(step, Step::Ask(PendingCall::FindUser, Machine::DepositAwaitFind)));
    let user = UserRecord {
        wallet_address: "0xDEAD".to_string(),
        encrypted_private_key: String::new(),
    };
    let step = p.resume(Machine::DepositAwaitFind, CallResult::FindUser(Ok(Some(user))));
    assert_eq!(reply_text(step), "Deposit MATIC to:\n0xDEAD\n\nPolygon Amoy testnet");
    let step = p.resume(Machine::DepositAwaitFind, CallResult::FindUser(Ok(None)));
    assert_eq!(reply_text(step), "No wallet. Reply JOIN first.");
    let step = p.resume(Machine::DepositAwaitFind, CallResult::FindUser(Err(())));
    assert_eq!(reply_text(step), "Error. Try later.");
}

#[test]
fn history_renders_amounts_in_cents() {
    let p = full_processor();
    let ds = vec![
        DepositRecord { amount_cents: 500, source: "voucher".to_string() },
        DepositRecord { amount_cents: 1234, source: "transfer".to_string() },
    ];
    let step = p.resume(Machine::HistoryAwaitRecent, CallResult::GetRecentDeposits(Ok(ds)));
    assert_eq!(reply_text(step), "Recent deposits:\n$5.00 via voucher\n$12.34 via transfer");
    let step = p.resume(
        Machine::HistoryAwaitRecent,
        CallResult::GetRecentDeposits(Ok(Vec::new())),
    );
    assert_eq!(
        reply_text(step),
        "No transactions yet.\nReply REDEEM <code> to add funds."
    );
    let step = p.resume(Machine::HistoryAwaitRecent, CallResult::GetRecentDeposits(Err(())));
    assert_eq!(
        reply_text(step),
        "No transactions yet.\nReply REDEEM <code> to add funds."
    );
}

#[test]
fn voucher_taxonomy_maps_to_four_distinct_replies() {
    let p = full_processor();
    let mut replies: Vec<String> = Vec::new();
    for e in [
        VoucherError::NotFound,
        VoucherError::AlreadyRedeemed,
        VoucherError::Expired,
        VoucherError::DatabaseError,
    ] {
        let step = p.resume(
            Machine::RedeemAwaitRedeem { code: "V1".to_string() },
            CallResult::RedeemVoucher(Err(e)),
        );
        replies.push(reply_text(step));
    }
    assert_eq!(replies[0], "Invalid voucher code.");
    assert_eq!(replies[1], "Voucher already used.");
    assert_eq!(replies[2], "Voucher has expired.");
    assert_eq!(replies[3], "Error. Try later.");
    for i in 0..4 {
        for j in 0..4 {
            if i != j {
                assert_ne!(replies[i], replies[j]);
            }
        }
    }
}

#[test]
fn redeem_full_path_and_two_phase_outcome() {
    let p = full_processor();
    let step = p.start(Command::Redeem { code: "V1".to_string() });
    match step {
        Step::Ask(PendingCall::UserExists, Machine::RedeemAwaitExists { code }) => {
            assert_eq!(code, "V1");
        }
        _ => panic!("expected the exists call"),
    }
    let step = p.resume(
        Machine::RedeemAwaitExists { code: "V1".to_string() },
        CallResult::UserExists(Ok(true)),
    );
    match step {
        Step::Ask(
            PendingCall::RedeemVoucher { code },
            Machine::RedeemAwaitRedeem { code: c2 },
        ) => {
            assert_eq!(code, "V1");
            assert_eq!(c2, "V1");
        }
        _ => panic!("expected the redeem call"),
    }
    let step = p.resume(
        Machine::RedeemAwaitRedeem { code: "V1".to_string() },
        CallResult::RedeemVoucher(Ok(RedeemedVoucher { usdc_cents: 500 })),
    );
    match step {
        Step::Ask(
            PendingCall::RecordVoucherDeposit { amount_cents, code },
            Machine::RedeemAwaitRecord { usdc_cents },
        ) => {
            assert_eq!(amount_cents, 500);
            assert_eq!(code, "V1");
            assert_eq!(usdc_cents, 500);
        }
        _ => panic!("expected the record call"),
    }
    // The success reply is the same whether or not the deposit record wrote:
    // the voucher is spent either way.
    let expected = "Voucher redeemed!\n\n$5.00 USDC credited.\n\nReply BALANCE to check.";
    let ok = p.resume(
        Machine::RedeemAwaitRecord { usdc_cents: 500 },
        CallResult::RecordVoucherDeposit(Ok(())),
    );
    assert_eq!(reply_text(ok), expected);
    let err = p.resume(
        Machine::RedeemAwaitRecord { usdc_cents: 500 },
        CallResult::RecordVoucherDeposit(Err(())),
    );
    assert_eq!(reply_text(err), expected);
}

#[test]
fn redeem_precondition_branches() {
    let p = CommandProcessor::new(false);
    assert_eq!(
        reply_text(p.start(Command::Redeem { code: "V1".to_string() })),
        "DB offline. Try later."
    );
    let p = full_processor();
    let step = p.resume(
        Machine::RedeemAwaitExists { code: "V1".to_string() },
        CallResult::UserExists(Ok(false)),
    );
    assert_eq!(reply_text(step), "No wallet. Reply JOIN first.");
    let no_voucher = CommandProcessor::with_repos(true, false, true, true);
    let step = no_voucher.resume(
        Machine::RedeemAwaitExists { code: "V1".to_string() },
        CallResult::UserExists(Ok(true)),
    );
    assert_eq!(reply_text(step), "Voucher system offline.");
    let no_deposit = CommandProcessor::with_repos(true, true, false, true);
    let step = no_deposit.resume(
        Machine::RedeemAwaitExists { code: "V1".to_string() },
        CallResult::UserExists(Ok(true)),
    );
    assert_eq!(reply_text(step), "Deposit system offline.");
}

#[test]
fn contacts_lists_at_most_five() {
    let p = full_processor();
    let cs: Vec<ContactRecord> = (1..=6)
        .map(|i| ContactRecord { name: format!("N{}", i), phone: format!("+{}", i) })
        .collect();
    let step = p.resume(Machine::ContactsAwaitList, CallResult::ListContacts(Ok(cs)));
    assert_eq!(
        reply_text(step),
        "Contacts:\nN1: +1\nN2: +2\nN3: +3\nN4: +4\nN5: +5"
    );
    let step = p.resume(Machine::ContactsAwaitList, CallResult::ListContacts(Ok(Vec::new())));
    assert_eq!(reply_text(step), "No contacts yet.\n\nSAVE <name> <phone>");
    let step = p.resume(Machine::ContactsAwaitList, CallResult::ListContacts(Err(())));
    assert_eq!(reply_text(step), "Error loading contacts.");
}

#[test]
fn save_contact_branches() {
    let p = full_processor();
    let step = p.start(Command::Save { name: "MOM".to_string(), phone: "+91".to_string() });
    assert!(matches!(step, Step::Ask(PendingCall::AddContact { .. }, _)));
    let step = p.resume(
        Machine::SaveAwaitAdd { name: "MOM".to_string(), phone: "+91".to_string() },
        CallResult::AddContact(Ok(())),
    );
    assert_eq!(reply_text(step), "Saved +91 as MOM.");
    let step = p.resume(
        Machine::SaveAwaitAdd { name: "MOM".to_string(), phone: "+91".to_string() },
        CallResult::AddContact(Err(())),
    );
    assert_eq!(reply_text(step), "Error saving contact.");
    let p = CommandProcessor::new(true);
    let step = p.start(Command::Save { name: "MOM".to_string(), phone: "+91".to_string() });
    assert_eq!(reply_text(step), "Address book offline.");
}

#[test]
fn chain_switch_replies() {
    let p = full_processor();
    let step = p.start(Command::SwitchChain { chain: "POLYGON".to_string() });
    assert_eq!(
        reply_text(step),
        "Switched to Polygon Amoy!\n\nChain ID: 80002\nNative: MATIC"
    );
    let step = p.start(Command::SwitchChain { chain: "BASE".to_string() });
    assert_eq!(reply_text(step), "Switched to Base!\n\nChain ID: 8453\nNative: ETH");
    let step = p.start(Command::SwitchChain { chain: "DOGE".to_string() });
    assert_eq!(
        reply_text(step),
        "Unknown chain: DOGE\n\nAvailable: polygon, base, eth, arb"
    );
}

#[test]
fn unknown_echo_is_bounded_to_fifteen_characters() {
    let p = full_processor();
    let gibberish: String = "X".repeat(100);
    let cmd = p.parse(&gibberish);
    assert_eq!(cmd, Command::Unknown(gibberish.clone()));
    let reply = reply_text(p.start(cmd));
    let expected_echo: String = "X".repeat(15);
    assert_eq!(
        reply,
        format!("Unknown: {}\n\nReply HELP for commands.", expected_echo)
    );
    assert!(!reply.contains(&"X".repeat(16)));
    // Empty input gets the welcome message.
    let reply = reply_text(p.start(Command::Unknown(String::new())));
    assert_eq!(reply, "Welcome to TextChain!\n\nReply HELP for commands.");
}

#[test]
fn balance_key_material_must_be_exactly_32_bytes() {
    let p = full_processor();
    // A well-formed 64-digit key decodes and moves on to reconstruction.
    let good = UserRecord {
        wallet_address: "0xA".to_string(),
        encrypted_private_key: "00".repeat(32),
    };
    let step = p.resume(Machine::BalanceAwaitFind, CallResult::FindUser(Ok(Some(good))));
    match step {
        Step::Ask(PendingCall::ReconstructWallet { key }, Machine::BalanceAwaitWallet) => {
            assert_eq!(key, vec![0u8; 32]);
        }
        _ => panic!("expected the reconstruct call"),
    }
    // Wrong length or malformed hex is permanent data corruption.
    let short = UserRecord {
        wallet_address: "0xA".to_string(),
        encrypted_private_key: "00".repeat(31),
    };
    let step = p.resume(Machine::BalanceAwaitFind, CallResult::FindUser(Ok(Some(short))));
    assert_eq!(reply_text(step), "Error reading wallet.");
    let bad = UserRecord {
        wallet_address: "0xA".to_string(),
        encrypted_private_key: "zz".repeat(32),
    };
    let step = p.resume(Machine::BalanceAwaitFind, CallResult::FindUser(Ok(Some(bad))));
    assert_eq!(reply_text(step), "Error reading wallet.");
}
