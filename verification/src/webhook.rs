//! The webhook's computed payloads: the incoming message's fields, XML
//! escaping and the TwiML envelope, and the JSON reply envelope. The HTTP
//! layer itself lives with the driver.

use vstd::prelude::*;
use crate::crypto::hex_digit;
use crate::text::{append_str_chars, chars_to_string, str_to_chars};

verus! {

/// An incoming SMS webhook payload.
#[derive(Debug, Clone)]
pub struct IncomingSms {
    /// The phone number that sent the message.
    pub from: String,
    /// The phone number the message was sent to.
    pub to: String,
    /// The body of the SMS message.
    pub body: String,
    /// The transport's unique ID for this message.
    pub message_sid: String,
    /// Number of media items attached.
    pub num_media: String,
}

/// XML escaping of one character.
pub open spec fn xml_escape_char(c: char) -> Seq<char> {
    if c == '&' {
        seq!['&', 'a', 'm', 'p', ';']
    } else if c == '<' {
        seq!['&', 'l', 't', ';']
    } else if c == '>' {
        seq!['&', 'g', 't', ';']
    } else if c == '"' {
        seq!['&', 'q', 'u', 'o', 't', ';']
    } else if c == '\'' {
        seq!['&', 'a', 'p', 'o', 's', ';']
    } else {
        seq![c]
    }
}

/// XML escaping of a whole text.
pub open spec fn escape_xml_spec(s: Seq<char>) -> Seq<char>
    decreases s.len(),
{
    if s.len() == 0 {
        Seq::empty()
    } else {
        escape_xml_spec(s.drop_last()) + xml_escape_char(s.last())
    }
}

/// Escape the five special XML characters.
pub fn escape_xml(s: &str) -> (r: String)
    ensures
        r@ == escape_xml_spec(s@),
{
    let chars = str_to_chars(s);
    let n = chars.len();
    let mut out: Vec<char> = Vec::new();
    let mut i: usize = 0;
    while i < n
        invariant
            i <= n,
            n == s@.len(),
            chars@ == s@,
            out@ == escape_xml_spec(s@.take(i as int)),
        decreases n - i,
    {
        proof {
            assert(s@.take(i + 1).drop_last() =~= s@.take(i as int));
            assert(s@.take(i + 1).last() == s@[i as int]);
        }
        let c = chars[i];
        let ghost pre = out@;
        if c == '&' {
            append_str_chars(&mut out, "&amp;");
        } else if c == '<' {
            append_str_chars(&mut out, "&lt;");
        } else if c == '>' {
            append_str_chars(&mut out, "&gt;");
        } else if c == '"' {
            append_str_chars(&mut out, "&quot;");
        } else if c == '\'' {
            append_str_chars(&mut out, "&apos;");
        } else {
            out.push(c);
        }
        proof {
            reveal_strlit("&amp;");
            reveal_strlit("&lt;");
            reveal_strlit("&gt;");
            reveal_strlit("&quot;");
            reveal_strlit("&apos;");
            assert(out@ =~= pre + xml_escape_char(c));
        }
        i += 1;
    }
    proof {
        assert(s@.take(n as int) =~= s@);
    }
    chars_to_string(&out)
}

/// The TwiML reply envelope around an escaped message.
pub open spec fn twiml_spec(reply: Seq<char>) -> Seq<char> {
    "<?xml version=\"1.0\" encoding=\"UTF-8\"?>\n<Response>\n    <Message>"@ + escape_xml_spec(
        reply,
    ) + "</Message>\n</Response>"@
}

/// Render a reply as the TwiML response document.
pub fn render_twiml(reply: &str) -> (r: String)
    ensures
        r@ == twiml_spec(reply@),
{
    let mut s = String::from_str(
        "<?xml version=\"1.0\" encoding=\"UTF-8\"?>\n<Response>\n    <Message>",
    );
    let escaped = escape_xml(reply);
    s.append(escaped.as_str());
    s.append("</Message>\n</Response>");
    s
}

/// JSON string escaping of one character: quote and backslash, the short
/// control escapes, and `\u00..` for the remaining control characters.
pub open spec fn json_escape_char(c: char) -> Seq<char> {
    if c == '"' {
        seq!['\\', '"']
    } else if c == '\\' {
        seq!['\\', '\\']
    } else if c == '\u{8}' {
        seq!['\\', 'b']
    } else if c == '\u{c}' {
        seq!['\\', 'f']
    } else if c == '\n' {
        seq!['\\', 'n']
    } else if c == '\r' {
        seq!['\\', 'r']
    } else if c == '\t' {
        seq!['\\', 't']
    } else if (c as u32) < 32 {
        seq!['\\', 'u', '0', '0'].push(hex_digit(((c as u32) / 16) as int)).push(
            hex_digit(((c as u32) % 16) as int),
        )
    } else {
        seq![c]
    }
}

pub open spec fn escape_json_spec(s: Seq<char>) -> Seq<char>
    decreases s.len(),
{
    if s.len() == 0 {
        Seq::empty()
    } else {
        escape_json_spec(s.drop_last()) + json_escape_char(s.last())
    }
}

/// Escape a text for inclusion in a JSON string literal.
pub fn escape_json(s: &str) -> (r: String)
    ensures
        r@ == escape_json_spec(s@),
{
    let chars = str_to_chars(s);
    let n = chars.len();
    let mut out: Vec<char> = Vec::new();
    let mut i: usize = 0;
    while i < n
        invariant
            i <= n,
            n == s@.len(),
            chars@ == s@,
            out@ == escape_json_spec(s@.take(i as int)),
        decreases n - i,
    {
        proof {
            assert(s@.take(i + 1).drop_last() =~= s@.take(i as int));
            assert(s@.take(i + 1).last() == s@[i as int]);
        }
        let c = chars[i];
        let ghost pre = out@;
        if c == '"' {
            out.push('\\');
            out.push('"');
        } else if c == '\\' {
            out.push('\\');
            out.push('\\');
        } else if c == '\u{8}' {
            out.push('\\');
            out.push('b');
        } else if c == '\u{c}' {
            out.push('\\');
            out.push('f');
        } else if c == '\n' {
            out.push('\\');
            out.push('n');
        } else if c == '\r' {
            out.push('\\');
            out.push('r');
        } else if c == '\t' {
            out.push('\\');
            out.push('t');
        } else if (c as u32) < 32 {
            let u = c as u32;
            out.push('\\');
            out.push('u');
            out.push('0');
            out.push('0');
            let hi = u / 16;
            let lo = u % 16;
            out.push(if hi < 10 { ((48 + hi) as u8) as char } else { ((87 + hi) as u8) as char });
            out.push(if lo < 10 { ((48 + lo) as u8) as char } else { ((87 + lo) as u8) as char });
        } else {
            out.push(c);
        }
        proof {
            assert(out@ =~= pre + json_escape_char(c));
        }
        i += 1;
    }
    proof {
        assert(s@.take(n as int) =~= s@);
    }
    chars_to_string(&out)
}

/// The JSON reply envelope: keys in lexicographic order, the reply escaped.
pub open spec fn json_reply_spec(reply: Seq<char>) -> Seq<char> {
    "{\"response\":\""@ + escape_json_spec(reply) + "\",\"success\":true}"@
}

/// Render a reply as the JSON response document.
pub fn render_json_reply(reply: &str) -> (r: String)
    ensures
        r@ == json_reply_spec(reply@),
{
    let mut s = String::from_str("{\"response\":\"");
    let escaped = escape_json(reply);
    s.append(escaped.as_str());
    s.append("\",\"success\":true}");
    s
}

} // verus!
