//! Application configuration. Reading the environment is the driver's job;
//! here live the configuration data, the port validation and the rendering
//! of the bind address.

use vstd::prelude::*;
use crate::text::{append_chars, append_str_chars, chars_to_string, dec_str, is_digit_ch,
    str_to_chars, u64_dec_chars};

verus! {

/// Application configuration.
#[derive(Debug, Clone)]
pub struct Config {
    pub twilio: TwilioConfig,
    pub server: ServerConfig,
}

/// Credentials of the SMS transport.
#[derive(Debug, Clone)]
pub struct TwilioConfig {
    pub account_sid: String,
    pub auth_token: String,
    pub phone_number: String,
}

/// Where the server listens.
#[derive(Debug, Clone)]
pub struct ServerConfig {
    pub host: String,
    pub port: u16,
}

/// A configuration fault: a required variable is missing, or a value is
/// malformed. Carries the variable's name.
#[derive(Debug, Clone, Copy)]
pub enum ConfigError {
    Missing(&'static str),
    Invalid(&'static str),
}

pub open spec fn config_error_message_spec(e: ConfigError) -> Seq<char> {
    match e {
        ConfigError::Missing(v) => "Missing environment variable: "@ + v@,
        ConfigError::Invalid(v) => "Invalid value for: "@ + v@,
    }
}

impl ConfigError {
    /// The human-readable description of the fault.
    pub fn message(&self) -> (r: String)
        ensures
            r@ == config_error_message_spec(*self),
    {
        match self {
            ConfigError::Missing(v) => {
                let mut s = String::from_str("Missing environment variable: ");
                s.append(v);
                s
            },
            ConfigError::Invalid(v) => {
                let mut s = String::from_str("Invalid value for: ");
                s.append(v);
                s
            },
        }
    }
}

/// The numeric value of a digit string.
pub open spec fn dec_val(s: Seq<char>) -> int
    decreases s.len(),
{
    if s.len() == 0 {
        0
    } else {
        dec_val(s.drop_last()) * 10 + (s.last() as u32 - 48)
    }
}

/// Every character is a digit.
pub open spec fn valid_port_text(s: Seq<char>) -> bool {
    s.len() > 0 && crate::text::all_digits(s) && dec_val(s) <= 65535
}

/// Parse a port number: digits only, value at most 65535.
pub fn parse_port(s: &str) -> (r: Option<u16>)
    ensures
        r is Some <==> valid_port_text(s@),
        r is Some ==> r->0 == dec_val(s@),
{
    let chars = str_to_chars(s);
    let n = chars.len();
    if n == 0 {
        return None;
    }
    let mut acc: u64 = 0;
    let mut i: usize = 0;
    while i < n
        invariant
            i <= n,
            n == s@.len(),
            chars@ == s@,
            crate::text::all_digits(s@.take(i as int)),
            acc <= 65535 ==> acc == dec_val(s@.take(i as int)),
            acc > 65535 ==> acc == 65536 && dec_val(s@.take(i as int)) > 65535,
        decreases n - i,
    {
        proof {
            assert(s@.take(i + 1).drop_last() =~= s@.take(i as int));
            assert(s@.take(i + 1).last() == s@[i as int]);
        }
        let c = chars[i];
        if !is_digit_ch(c) {
            proof {
                if crate::text::all_digits(s@) {
                    crate::text::lemma_all_digits_take(s@, i + 1);
                }
            }
            return None;
        }
        let d = (c as u32 - 48) as u64;
        acc = acc * 10 + d;
        if acc > 65535 {
            acc = 65536;
        }
        i += 1;
    }
    proof {
        assert(s@.take(n as int) =~= s@);
    }
    if acc > 65535 {
        None
    } else {
        Some(acc as u16)
    }
}

impl Config {
    /// The server bind address: `<host>:<port>`.
    pub fn bind_addr(&self) -> (r: String)
        ensures
            r@ == self.server.host@ + ":"@ + dec_str(self.server.port as int),
    {
        let mut out: Vec<char> = Vec::new();
        append_str_chars(&mut out, self.server.host.as_str());
        append_str_chars(&mut out, ":");
        let p = u64_dec_chars(self.server.port as u64);
        append_chars(&mut out, &p);
        chars_to_string(&out)
    }
}

} // verus!
