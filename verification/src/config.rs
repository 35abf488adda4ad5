//! The relay's startup settings: where to listen, the API key, and the
//! upstream SMTP account, resolved from environment entries that the caller
//! hands over as plain optional strings.
//!
//! A required entry with no value is a `MissingEnvVar` error and a port that
//! is not a numeral is an `InvalidPort` error; an optional entry falls back
//! to its default only when it has no value at all.

use vstd::prelude::*;
use vstd::string::StrSliceExecFns;
use vstd::string::StringExecFns;

use crate::error::RelayError;

verus! {

/// The upstream SMTP settings: host, credentials, sender display name, port.
#[derive(Clone, Debug)]
pub struct RelaySMTPConfig {
    pub host: String,
    pub user: String,
    pub pass: String,
    pub name: String,
    pub port: u16,
}

/// The whole configuration: listen host and port, the API key the bearer
/// gate compares against, and the SMTP settings.
#[derive(Clone, Debug)]
pub struct RelayConfig {
    pub port: u16,
    pub key: String,
    pub host: String,
    pub smtp: RelaySMTPConfig,
}

/// The raw environment entries the configuration is resolved from, each
/// `None` when the variable is entirely absent.
pub struct RawEnv {
    /// `HOST`
    pub host: Option<String>,
    /// `PORT`
    pub port: Option<String>,
    /// `API_KEY`
    pub key: Option<String>,
    /// `SMTP_HOST`
    pub smtp_host: Option<String>,
    /// `SMTP_USER`
    pub smtp_user: Option<String>,
    /// `SMTP_PASS`
    pub smtp_pass: Option<String>,
    /// `SMTP_NAME`
    pub smtp_name: Option<String>,
    /// `SMTP_PORT`
    pub smtp_port: Option<String>,
}

/// Whether `c` is an ASCII decimal digit.
pub open spec fn is_digit(c: char) -> bool {
    '0' <= c && c <= '9'
}

/// The numeric value of the digit `c`.
pub open spec fn digit_val(c: char) -> int {
    c as int - '0' as int
}

/// Whether every character of `s` is an ASCII decimal digit.
pub open spec fn all_digits(s: Seq<char>) -> bool {
    forall|i: int| 0 <= i < s.len() ==> is_digit(#[trigger] s[i])
}

/// The value of `s` read as a big-endian decimal numeral.
pub open spec fn digits_val(s: Seq<char>) -> int
    decreases s.len(),
{
    if s.len() == 0 {
        0
    } else {
        digits_val(s.drop_last()) * 10 + digit_val(s.last())
    }
}

/// What `str::parse::<u16>` accepts: an optional leading `'+'`, then one or
/// more decimal digits whose value fits in a `u16`.
pub open spec fn spec_parse_u16(s: Seq<char>) -> Option<u16> {
    let digits = if s.len() >= 1 && s[0] == '+' {
        s.subrange(1, s.len() as int)
    } else {
        s
    };
    if digits.len() >= 1 && all_digits(digits) && digits_val(digits) <= u16::MAX {
        Some(digits_val(digits) as u16)
    } else {
        None
    }
}

proof fn lemma_digits_val_nonneg(s: Seq<char>)
    requires
        all_digits(s),
    ensures
        digits_val(s) >= 0,
    decreases s.len(),
{
    if s.len() > 0 {
        assert(all_digits(s.drop_last())) by {
            assert(forall|i: int|
                0 <= i < s.len() - 1 ==> is_digit(#[trigger] s.drop_last()[i]) == is_digit(s[i]));
        }
        lemma_digits_val_nonneg(s.drop_last());
    }
}

/// Reads a decimal numeral with an optional leading `'+'`, exactly as
/// `str::parse::<u16>` does: rejects an empty numeral, any non-digit, and
/// any value above `u16::MAX`.
#[verifier::loop_isolation(false)]
pub fn parse_u16(s: &str) -> (r: Option<u16>)
    ensures
        r == spec_parse_u16(s@),
{
    let n = s.unicode_len();
    let start: usize = if n >= 1 && s.get_char(0) == '+' {
        1
    } else {
        0
    };
    let ghost digits = if s@.len() >= 1 && s@[0] == '+' {
        s@.subrange(1, s@.len() as int)
    } else {
        s@
    };
    if n == start {
        return None;
    }
    // `v` follows the numeral's value, clamped at 100000 so that it never
    // overflows; the clamp can only engage once the value exceeds `u16::MAX`.
    let mut v: u32 = 0;
    let mut i: usize = start;
    while i < n
        invariant
            start <= i <= n,
            all_digits(s@.subrange(start as int, i as int)),
            v <= 100000,
            digits_val(s@.subrange(start as int, i as int)) <= 100000 ==> v == digits_val(
                s@.subrange(start as int, i as int),
            ),
            digits_val(s@.subrange(start as int, i as int)) > 100000 ==> v == 100000,
        decreases n - i,
    {
        let c = s.get_char(i);
        if c < '0' || c > '9' {
            assert(digits[i - start] == s@[i as int]);
            return None;
        }
        let d: u32 = (c as u32) - ('0' as u32);
        let ghost prefix = s@.subrange(start as int, i as int);
        let ghost next_prefix = s@.subrange(start as int, i + 1);
        assert(next_prefix.drop_last() =~= prefix);
        assert(digits_val(next_prefix) == digits_val(prefix) * 10 + digit_val(c));
        proof {
            assert(all_digits(next_prefix)) by {
                assert(forall|j: int|
                    0 <= j < prefix.len() ==> #[trigger] next_prefix[j] == prefix[j]);
            }
            lemma_digits_val_nonneg(prefix);
        }
        v = v * 10 + d;
        if v > 100000 {
            v = 100000;
        }
        i += 1;
    }
    assert(s@.subrange(start as int, i as int) =~= digits);
    if v <= 65535 {
        Some(v as u16)
    } else {
        None
    }
}

impl RelayConfig {
    /// Resolves the configuration from the raw environment entries.
    ///
    /// `HOST`, `PORT`, `SMTP_NAME` and `SMTP_PORT` default to `127.0.0.1`,
    /// `8080`, `Relay` and `587` when absent; `API_KEY`, `SMTP_HOST`,
    /// `SMTP_USER` and `SMTP_PASS` are required. Failures are reported in the
    /// fixed order: `PORT` unparsable, then each missing required entry in
    /// the order above, then `SMTP_PORT` unparsable. A port error names the
    /// entry and carries the offending value.
    pub fn from_env(env: &RawEnv) -> (r: Result<RelayConfig, RelayError>)
        ensures
            r is Ok <==> (spec_parse_u16(port_source(env)) is Some && env.key is Some
                && env.smtp_host is Some && env.smtp_user is Some && env.smtp_pass is Some
                && spec_parse_u16(smtp_port_source(env)) is Some),
            r matches Ok(c) ==> {
                &&& c.host@ == host_source(env)
                &&& Some(c.port) == spec_parse_u16(port_source(env))
                &&& c.key@ == env.key->0@
                &&& c.smtp.host@ == env.smtp_host->0@
                &&& c.smtp.user@ == env.smtp_user->0@
                &&& c.smtp.pass@ == env.smtp_pass->0@
                &&& c.smtp.name@ == smtp_name_source(env)
                &&& Some(c.smtp.port) == spec_parse_u16(smtp_port_source(env))
            },
            spec_parse_u16(port_source(env)) is None ==> (r matches Err(RelayError::InvalidPort(m))
                && m@ == "PORT must be a valid number: "@ + port_source(env)),
            spec_parse_u16(port_source(env)) is Some && env.key is None ==> (r matches Err(
                RelayError::MissingEnvVar(m),
            ) && m@ == "API_KEY"@),
            spec_parse_u16(port_source(env)) is Some && env.key is Some && env.smtp_host is None
                ==> (r matches Err(RelayError::MissingEnvVar(m)) && m@ == "SMTP_HOST"@),
            spec_parse_u16(port_source(env)) is Some && env.key is Some && env.smtp_host is Some
                && env.smtp_user is None ==> (r matches Err(RelayError::MissingEnvVar(m)) && m@
                == "SMTP_USER"@),
            spec_parse_u16(port_source(env)) is Some && env.key is Some && env.smtp_host is Some
                && env.smtp_user is Some && env.smtp_pass is None ==> (r matches Err(
                RelayError::MissingEnvVar(m),
            ) && m@ == "SMTP_PASS"@),
            spec_parse_u16(port_source(env)) is Some && env.key is Some && env.smtp_host is Some
                && env.smtp_user is Some && env.smtp_pass is Some && spec_parse_u16(
                smtp_port_source(env),
            ) is None ==> (r matches Err(RelayError::InvalidPort(m)) && m@
                == "SMTP_PORT must be a valid number: "@ + smtp_port_source(env)),
    {
        let host = clone_or(&env.host, "127.0.0.1");
        let port_text = string_or(&env.port, "8080");
        let port = match parse_u16(port_text) {
            Some(p) => p,
            None => {
                return Err(
                    RelayError::InvalidPort(
                        "PORT must be a valid number: ".to_owned().concat(port_text),
                    ),
                );
            },
        };
        let key = match &env.key {
            Some(k) => k.clone(),
            None => { return Err(RelayError::MissingEnvVar("API_KEY".to_owned())) },
        };
        let smtp_host = match &env.smtp_host {
            Some(h) => h.clone(),
            None => { return Err(RelayError::MissingEnvVar("SMTP_HOST".to_owned())) },
        };
        let smtp_user = match &env.smtp_user {
            Some(u) => u.clone(),
            None => { return Err(RelayError::MissingEnvVar("SMTP_USER".to_owned())) },
        };
        let smtp_pass = match &env.smtp_pass {
            Some(p) => p.clone(),
            None => { return Err(RelayError::MissingEnvVar("SMTP_PASS".to_owned())) },
        };
        let smtp_name = clone_or(&env.smtp_name, "Relay");
        let smtp_port_text = string_or(&env.smtp_port, "587");
        let smtp_port = match parse_u16(smtp_port_text) {
            Some(p) => p,
            None => {
                return Err(
                    RelayError::InvalidPort(
                        "SMTP_PORT must be a valid number: ".to_owned().concat(smtp_port_text),
                    ),
                );
            },
        };
        Ok(
            RelayConfig {
                host,
                port,
                key,
                smtp: RelaySMTPConfig {
                    host: smtp_host,
                    user: smtp_user,
                    pass: smtp_pass,
                    name: smtp_name,
                    port: smtp_port,
                },
            },
        )
    }
}

/// The effective `HOST` value: the entry itself, or its default.
pub open spec fn host_source(env: &RawEnv) -> Seq<char> {
    match env.host {
        Some(h) => h@,
        None => "127.0.0.1"@,
    }
}

/// The numeral the listen port is parsed from: `PORT`, or its default.
pub open spec fn port_source(env: &RawEnv) -> Seq<char> {
    match env.port {
        Some(p) => p@,
        None => "8080"@,
    }
}

/// The effective `SMTP_NAME` value: the entry itself, or its default.
pub open spec fn smtp_name_source(env: &RawEnv) -> Seq<char> {
    match env.smtp_name {
        Some(n) => n@,
        None => "Relay"@,
    }
}

/// The numeral the SMTP port is parsed from: `SMTP_PORT`, or its default.
pub open spec fn smtp_port_source(env: &RawEnv) -> Seq<char> {
    match env.smtp_port {
        Some(p) => p@,
        None => "587"@,
    }
}

/// The entry's value, or the default when the entry is absent.
fn string_or<'a>(v: &'a Option<String>, default: &'a str) -> (r: &'a str)
    ensures
        v matches Some(s) ==> r@ == s@,
        v is None ==> r@ == default@,
{
    match v {
        Some(s) => s.as_str(),
        None => default,
    }
}

/// An owned copy of the entry's value, or of the default when it is absent.
fn clone_or(v: &Option<String>, default: &str) -> (r: String)
    ensures
        v matches Some(s) ==> r@ == s@,
        v is None ==> r@ == default@,
{
    match v {
        Some(s) => s.clone(),
        None => default.to_owned(),
    }
}

} // verus!
