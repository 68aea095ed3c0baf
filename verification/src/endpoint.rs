//! Endpoint resolution: one local configuration entry is turned into the
//! URL that every statement of the batch is submitted to. A configured
//! secure channel is recognized but not yet actionable; a host that is not
//! a well-formed IPv4 literal cannot make an endpoint.
//!
//! The IPv4 restriction is deliberate and part of the contract: the URL is
//! the plain text `http://{host}:{port}/v1/statement`, and an IPv4 literal
//! is the one host form for which that text is a well-formed URL as it
//! stands. A name would bypass the address check, and an IPv6 address
//! would need brackets kept around the host; both are rejected as
//! `EndpointBuildError` rather than producing a URL no client can use.
//! In particular a bracketed IPv6 host, though it names a socket address,
//! is rejected here: pasted between `http://` and `:{port}` it would need
//! its own bracket handling, which this resolver does not do.

use vstd::prelude::*;

use crate::error::QueryError;
use crate::num::{dec_spec, dec_u128};
use crate::split::{split_on, split_on_spec};

verus! {

/// One local query-service configuration entry, as the persisted status
/// record provides it: HTTP host and port, and the TLS key and certificate
/// paths, where empty strings signal plaintext.
#[derive(Clone, Debug)]
pub struct LocalConfig {
    pub host: String,
    pub port: u16,
    pub tls_key: String,
    pub tls_cert: String,
}

/// An ASCII decimal digit.
pub open spec fn is_ascii_digit(c: char) -> bool {
    c == '0' || c == '1' || c == '2' || c == '3' || c == '4' || c == '5' || c == '6' || c == '7'
        || c == '8' || c == '9'
}

/// The value of the digit character `c`.
pub open spec fn digit_val(c: char) -> nat {
    if c == '1' {
        1
    } else if c == '2' {
        2
    } else if c == '3' {
        3
    } else if c == '4' {
        4
    } else if c == '5' {
        5
    } else if c == '6' {
        6
    } else if c == '7' {
        7
    } else if c == '8' {
        8
    } else if c == '9' {
        9
    } else {
        0
    }
}

/// The value of a string of decimal digits, most significant first.
pub open spec fn digits_val(s: Seq<char>) -> nat
    decreases s.len(),
{
    if s.len() == 0 {
        0
    } else {
        digits_val(s.drop_last()) * 10 + digit_val(s.last())
    }
}

/// A well-formed IPv4 octet: one to three decimal digits, no leading zero
/// unless it is `0` itself, value at most 255.
pub open spec fn valid_octet(s: Seq<char>) -> bool {
    &&& 1 <= s.len() <= 3
    &&& forall|i: int| 0 <= i < s.len() ==> is_ascii_digit(#[trigger] s[i])
    &&& (s.len() > 1 ==> s[0] != '0')
    &&& digits_val(s) <= 255
}

/// A well-formed IPv4 literal: four well-formed octets joined by `.`.
/// This is the full set of hosts the resolver accepts (see the module
/// documentation for why other host forms are rejected).
pub open spec fn valid_ipv4(s: Seq<char>) -> bool {
    let parts = split_on_spec(s, '.');
    parts.len() == 4 && (forall|i: int| 0 <= i < 4 ==> valid_octet(#[trigger] parts[i]))
}

fn char_is_digit(c: char) -> (r: bool)
    ensures
        r == is_ascii_digit(c),
{
    c == '0' || c == '1' || c == '2' || c == '3' || c == '4' || c == '5' || c == '6' || c == '7'
        || c == '8' || c == '9'
}

fn char_digit_val(c: char) -> (r: u32)
    ensures
        r == digit_val(c),
{
    if c == '1' {
        1
    } else if c == '2' {
        2
    } else if c == '3' {
        3
    } else if c == '4' {
        4
    } else if c == '5' {
        5
    } else if c == '6' {
        6
    } else if c == '7' {
        7
    } else if c == '8' {
        8
    } else if c == '9' {
        9
    } else {
        0
    }
}

fn check_octet(s: &str) -> (r: bool)
    ensures
        r == valid_octet(s@),
{
    let n = s.unicode_len();
    if n < 1 || n > 3 {
        return false;
    }
    let mut i: usize = 0;
    let mut v: u32 = 0;
    while i < n
        invariant
            n == s@.len(),
            n <= 3,
            0 <= i <= n,
            forall|j: int| 0 <= j < i ==> is_ascii_digit(#[trigger] s@[j]),
            v == digits_val(s@.take(i as int)),
            i == 0 ==> v == 0,
            i == 1 ==> v <= 9,
            i == 2 ==> v <= 99,
            i == 3 ==> v <= 999,
        decreases n - i,
    {
        let c = s.get_char(i);
        if !char_is_digit(c) {
            return false;
        }
        proof {
            assert(s@.take(i as int + 1).drop_last() =~= s@.take(i as int));
            assert(s@.take(i as int + 1).last() == s@[i as int]);
        }
        v = v * 10 + char_digit_val(c);
        i += 1;
    }
    proof {
        assert(s@.take(n as int) =~= s@);
    }
    if n > 1 && s.get_char(0) == '0' {
        return false;
    }
    v <= 255
}

/// Decides whether `host` is a well-formed IPv4 literal.
pub fn is_valid_ipv4(host: &str) -> (r: bool)
    ensures
        r == valid_ipv4(host@),
{
    let parts = split_on(host, '.');
    let ghost pv: Seq<Seq<char>> = parts.deep_view();
    if parts.len() != 4 {
        return false;
    }
    let mut i: usize = 0;
    while i < 4
        invariant
            pv == parts.deep_view(),
            pv == split_on_spec(host@, '.'),
            pv.len() == 4,
            parts.len() == 4,
            0 <= i <= 4,
            forall|j: int| 0 <= j < i ==> valid_octet(#[trigger] pv[j]),
        decreases 4 - i,
    {
        proof {
            assert(pv[i as int] == parts@[i as int]@);
        }
        if !check_octet(parts[i].as_str()) {
            proof {
                assert(!valid_octet(split_on_spec(host@, '.')[i as int]));
            }
            return false;
        }
        i += 1;
    }
    true
}

/// The submission URL for a plaintext local endpoint: fixed scheme `http`,
/// the configured host and port, and the fixed path `/v1/statement`.
pub open spec fn url_spec(host: Seq<char>, port: u16) -> Seq<char> {
    "http://"@ + host + ":"@ + dec_spec(port as nat) + "/v1/statement"@
}

/// Derives the submission URL from one configuration entry.
///
/// A configured secure channel (both TLS paths non-empty) is recognized
/// but unbuilt; a host that is not an IPv4 literal cannot make an
/// endpoint (`EndpointBuildError`, the module documentation says why only
/// IPv4 literals are accepted); otherwise the plaintext URL is returned,
/// exactly `http://{host}:{port}/v1/statement`.
pub fn build_query_endpoint(cfg: &LocalConfig) -> (r: Result<String, QueryError>)
    ensures
        cfg.tls_key@.len() > 0 && cfg.tls_cert@.len() > 0 ==> (r matches Err(e)
            && e is NotImplemented),
        (cfg.tls_key@.len() == 0 || cfg.tls_cert@.len() == 0) && !valid_ipv4(cfg.host@) ==> (
        r matches Err(e) && e is EndpointBuildError),
        (cfg.tls_key@.len() == 0 || cfg.tls_cert@.len() == 0) && valid_ipv4(cfg.host@) ==> (
        r matches Ok(u) && u@ == url_spec(cfg.host@, cfg.port)),
{
    if !cfg.tls_key.as_str().is_empty() && !cfg.tls_cert.as_str().is_empty() {
        return Err(
            QueryError::NotImplemented(String::from_str("secure channel to the query service")),
        );
    }
    if !is_valid_ipv4(cfg.host.as_str()) {
        let mut d = String::from_str("host is not an IPv4 literal: ");
        d.append(cfg.host.as_str());
        return Err(QueryError::EndpointBuildError(d));
    }
    let mut url = String::from_str("http://");
    url.append(cfg.host.as_str());
    url.append(":");
    let port_digits = dec_u128(cfg.port as u128);
    url.append(port_digits.as_str());
    url.append("/v1/statement");
    Ok(url)
}

} // verus!
