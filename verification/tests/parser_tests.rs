use sms_request_handler::command::Command;
use sms_request_handler::parser::CommandProcessor;

fn test_processor() -> CommandProcessor {
    CommandProcessor::new(false)
}

#[test]
fn test_parse_help() {
    let processor = test_processor();
    assert_eq!(processor.parse("HELP"), Command::Help);
    assert_eq!(processor.parse("help"), Command::Help);
    assert_eq!(processor.parse("?"), Command::Help);
}

#[test]
fn test_parse_join() {
    let processor = test_processor();
    assert_eq!(processor.parse("JOIN"), Command::Join);
    assert_eq!(processor.parse("start"), Command::Join);
}

#[test]
fn test_parse_balance() {
    let processor = test_processor();
    assert_eq!(processor.parse("BALANCE"), Command::Balance);
    assert_eq!(processor.parse("bal"), Command::Balance);
}

#[test]
fn test_parse_send() {
    let processor = test_processor();

    let cmd = processor.parse("SEND 10 USDC TO +917123456789");
    assert!(matches!(cmd, Command::Send { amount, token, recipient }
        if amount == "10" && token == "USDC" && recipient == "+917123456789"));
}

#[test]
fn test_parse_pin() {
    let processor = test_processor();

    let cmd = processor.parse("PIN 1234");
    assert!(matches!(cmd, Command::Pin { new_pin: Some(pin) } if pin == "1234"));

    let cmd = processor.parse("PIN");
    assert!(matches!(cmd, Command::Pin { new_pin: None }));
}

#[test]
fn test_parse_unknown() {
    let processor = test_processor();

    let cmd = processor.parse("FOOBAR");
    assert!(matches!(cmd, Command::Unknown(_)));
}

#[test]
fn parse_is_total_on_empty_and_whitespace() {
    let p = test_processor();
    assert_eq!(p.parse(""), Command::Unknown(String::new()));
    assert_eq!(p.parse("   \t\r\n  "), Command::Unknown(String::new()));
}

#[test]
fn parse_is_case_insensitive() {
    let p = test_processor();
    assert_eq!(p.parse("help"), p.parse("HELP"));
    assert_eq!(p.parse("HeLp"), p.parse("HELP"));
    assert_eq!(p.parse("HeLp"), Command::Help);
    assert_eq!(p.parse("bAlAnCe"), Command::Balance);
}

#[test]
fn parse_send_round_trip_and_failures() {
    let p = test_processor();
    assert_eq!(
        p.parse("SEND 10 USDC TO +917123456789"),
        Command::Send {
            amount: "10".to_string(),
            token: "USDC".to_string(),
            recipient: "+917123456789".to_string(),
        }
    );
    assert_eq!(
        p.parse("SEND abc USDC TO +917123456789"),
        Command::Unknown("Invalid amount".to_string())
    );
    assert_eq!(
        p.parse("SEND 10 USDC"),
        Command::Unknown("Invalid SEND format. Use: SEND <amount> <token> TO <phone>".to_string())
    );
    assert_eq!(
        p.parse("SEND 10 USDC AT +917123456789 NOW"),
        Command::Unknown("Missing recipient. Use: SEND <amount> <token> TO <phone>".to_string())
    );
}

#[test]
fn parse_send_recipient_may_contain_spaces() {
    let p = test_processor();
    assert_eq!(
        p.parse("send 2.50 usdc to alice from work"),
        Command::Send {
            amount: "2.50".to_string(),
            token: "USDC".to_string(),
            recipient: "ALICE FROM WORK".to_string(),
        }
    );
}

#[test]
fn parse_save_and_redeem_and_chain() {
    let p = test_processor();
    assert_eq!(
        p.parse("SAVE mom +9188 00 11"),
        Command::Save { name: "MOM".to_string(), phone: "+9188 00 11".to_string() }
    );
    assert_eq!(p.parse("SAVE mom"), Command::Unknown("Usage: SAVE <name> <phone>".to_string()));
    assert_eq!(p.parse("redeem CODE99"), Command::Redeem { code: "CODE99".to_string() });
    assert_eq!(p.parse("REDEEM"), Command::Unknown("Usage: REDEEM <code>".to_string()));
    assert_eq!(p.parse("chain base"), Command::SwitchChain { chain: "BASE".to_string() });
    assert_eq!(
        p.parse("NETWORK"),
        Command::Unknown("Usage: CHAIN <polygon|base|eth|arb>".to_string())
    );
    assert_eq!(p.parse("deposit"), Command::Deposit);
    assert_eq!(p.parse("receive"), Command::Deposit);
    assert_eq!(p.parse("txs"), Command::History);
    assert_eq!(p.parse("book"), Command::Contacts);
    assert_eq!(p.parse("voucher V1"), Command::Redeem { code: "V1".to_string() });
}

#[test]
fn parse_unknown_keeps_normalized_text() {
    let p = test_processor();
    assert_eq!(p.parse("  foo   bar  "), Command::Unknown("FOO   BAR".to_string()));
}
