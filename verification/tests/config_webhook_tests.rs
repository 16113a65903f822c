use sms_request_handler::config::{parse_port, Config, ConfigError, ServerConfig, TwilioConfig};
use sms_request_handler::webhook::{escape_xml, render_json_reply, render_twiml, IncomingSms};

#[test]
fn test_escape_xml() {
    assert_eq!(escape_xml("Hello & Goodbye"), "Hello &amp; Goodbye");
    assert_eq!(escape_xml("<script>"), "&lt;script&gt;");
}

#[test]
fn escape_xml_covers_quotes() {
    assert_eq!(escape_xml("a\"b'c"), "a&quot;b&apos;c");
    assert_eq!(escape_xml(""), "");
}

#[test]
fn twiml_envelope_is_exact() {
    assert_eq!(
        render_twiml("Hi & bye"),
        "<?xml version=\"1.0\" encoding=\"UTF-8\"?>\n<Response>\n    <Message>Hi &amp; bye</Message>\n</Response>"
    );
}

#[test]
fn json_reply_escapes_and_orders_keys() {
    assert_eq!(
        render_json_reply("say \"hi\"\nnow"),
        "{\"response\":\"say \\\"hi\\\"\\nnow\",\"success\":true}"
    );
    assert_eq!(
        render_json_reply("plain"),
        "{\"response\":\"plain\",\"success\":true}"
    );
    // Matches what a JSON serializer produces for the same value.
    let mut m = serde_json::Map::new();
    m.insert(
        "success".to_string(),
        serde_json::Value::Bool(true),
    );
    m.insert(
        "response".to_string(),
        serde_json::Value::String("say \"hi\"\nnow".to_string()),
    );
    let v = serde_json::Value::Object(m);
    assert_eq!(render_json_reply("say \"hi\"\nnow"), v.to_string());
}

#[test]
fn bind_addr_formats_host_and_port() {
    let c = Config {
        twilio: TwilioConfig {
            account_sid: "sid".to_string(),
            auth_token: "tok".to_string(),
            phone_number: "+1".to_string(),
        },
        server: ServerConfig { host: "0.0.0.0".to_string(), port: 3000 },
    };
    assert_eq!(c.bind_addr(), "0.0.0.0:3000");
}

#[test]
fn port_parsing_accepts_digits_up_to_65535() {
    assert_eq!(parse_port("3000"), Some(3000));
    assert_eq!(parse_port("0"), Some(0));
    assert_eq!(parse_port("65535"), Some(65535));
    assert_eq!(parse_port("65536"), None);
    assert_eq!(parse_port("99999999999999999999"), None);
    assert_eq!(parse_port(""), None);
    assert_eq!(parse_port("30a0"), None);
    assert_eq!(parse_port("-1"), None);
}

#[test]
fn config_error_messages() {
    assert_eq!(
        ConfigError::Missing("TWILIO_ACCOUNT_SID").message(),
        "Missing environment variable: TWILIO_ACCOUNT_SID"
    );
    assert_eq!(
        ConfigError::Invalid("SERVER_PORT").message(),
        "Invalid value for: SERVER_PORT"
    );
}

#[test]
fn incoming_sms_carries_its_fields() {
    let sms = IncomingSms {
        from: "+91".to_string(),
        to: "+1".to_string(),
        body: "HELP".to_string(),
        message_sid: "SM1".to_string(),
        num_media: "0".to_string(),
    };
    assert_eq!(sms.from, "+91");
    assert_eq!(sms.body, "HELP");
}
