//! The registration request: the fixed endpoint and the JSON payload that
//! embeds the client's public key and the consent timestamp.

use vstd::prelude::*;

use crate::timestamp::Timestamp;
use crate::timestamp::format_timestamp;
use crate::timestamp::spec_timestamp;
use vstd::string::StrSliceExecFns;
use vstd::string::StringExecFns;

verus! {

/// The hexadecimal digit character for `d`.
pub open spec fn spec_hex_digit(d: nat) -> char {
    if d < 10 {
        crate::timestamp::spec_digit(d)
    } else if d == 10 {
        'a'
    } else if d == 11 {
        'b'
    } else if d == 12 {
        'c'
    } else if d == 13 {
        'd'
    } else if d == 14 {
        'e'
    } else {
        'f'
    }
}

/// How one character appears inside a JSON string literal: quotes and
/// backslashes get a backslash, control characters become `\u00XX`, and
/// every other character stands as itself.
pub open spec fn spec_escape_char(c: char) -> Seq<char> {
    if c == '"' {
        seq!['\\', '"']
    } else if c == '\\' {
        seq!['\\', '\\']
    } else if (c as nat) < 32 {
        seq!['\\', 'u', '0', '0', spec_hex_digit((c as nat) / 16), spec_hex_digit((c as nat) % 16)]
    } else {
        seq![c]
    }
}

/// The body of a JSON string literal holding the text `s`.
pub open spec fn spec_escape(s: Seq<char>) -> Seq<char>
    decreases s.len(),
{
    if s.len() == 0 {
        Seq::empty()
    } else {
        spec_escape(s.drop_last()) + spec_escape_char(s.last())
    }
}

/// The hexadecimal digit character for `d`.
fn hex_digit_char(d: u32) -> (c: char)
    requires
        d < 16,
    ensures
        c == spec_hex_digit(d as nat),
{
    if d < 10 {
        crate::timestamp::digit_char(d)
    } else if d == 10 {
        'a'
    } else if d == 11 {
        'b'
    } else if d == 12 {
        'c'
    } else if d == 13 {
        'd'
    } else if d == 14 {
        'e'
    } else {
        'f'
    }
}

/// Writes `s` as the body of a JSON string literal.
pub fn escape_json_string(s: &str) -> (r: String)
    ensures
        r@ == spec_escape(s@),
{
    let n = s.unicode_len();
    let mut out = String::new();
    let mut i: usize = 0;
    while i < n
        invariant
            i <= n,
            n == s@.len(),
            out@ == spec_escape(s@.subrange(0, i as int)),
        decreases n - i,
    {
        let c = s.get_char(i);
        if c == '"' {
            out.push('\\');
            out.push('"');
        } else if c == '\\' {
            out.push('\\');
            out.push('\\');
        } else if (c as u32) < 32 {
            out.push('\\');
            out.push('u');
            out.push('0');
            out.push('0');
            out.push(hex_digit_char((c as u32) / 16));
            out.push(hex_digit_char((c as u32) % 16));
        } else {
            out.push(c);
        }
        proof {
            assert(s@.subrange(0, i + 1 as int).drop_last() =~= s@.subrange(0, i as int));
            assert(s@.subrange(0, i + 1 as int).last() == s@[i as int]);
            assert(out@ =~= spec_escape(s@.subrange(0, i + 1 as int)));
        }
        i = i + 1;
    }
    proof {
        assert(s@.subrange(0, n as int) =~= s@);
    }
    out
}

/// The JSON payload of a registration request: an empty install id, the
/// consent timestamp, the client's public key, an empty push token, the
/// fixed platform literal and the fixed locale literal.
pub open spec fn spec_payload(key: Seq<char>, t: Timestamp) -> Seq<char> {
    "{\"install_id\":\"\",\"tos\":\""@ + spec_timestamp(t) + "\",\"key\":\""@ + spec_escape(key)
        + "\",\"fcm_token\":\"\",\"type\":\"ios\",\"locale\":\"en_US\"}"@
}

/// Builds the registration payload for this public key at this time.
pub fn build_registration_payload(public_key: &str, now: &Timestamp) -> (r: String)
    requires
        now.wf(),
    ensures
        r@ == spec_payload(public_key@, *now),
{
    let mut out = "{\"install_id\":\"\",\"tos\":\"".to_owned();
    let ts = format_timestamp(now);
    out.append(ts.as_str());
    out.append("\",\"key\":\"");
    let escaped = escape_json_string(public_key);
    out.append(escaped.as_str());
    out.append("\",\"fcm_token\":\"\",\"type\":\"ios\",\"locale\":\"en_US\"}");
    proof {
        assert(out@ =~= spec_payload(public_key@, *now));
    }
    out
}

/// The fixed endpoint of the upstream registration service.
pub fn registration_url() -> (r: String)
    ensures
        r@ == "https://api.cloudflareclient.com/v0i1909051800/reg"@,
{
    "https://api.cloudflareclient.com/v0i1909051800/reg".to_owned()
}

} // verus!
