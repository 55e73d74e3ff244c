//! Startup configuration: the shared client secret, the broker address and
//! the optional broker credential pair, with the fixed session parameters.
//!
//! A missing secret or an unparsable broker port is a fatal startup error;
//! everything else falls back to its default.

use vstd::prelude::*;
use vstd::string::StrSliceExecFns;

verus! {

/// Keepalive interval of the broker session, in seconds.
pub const BROKER_KEEPALIVE_SECS: u64 = 5;

/// The broker port used when none is configured.
pub const DEFAULT_BROKER_PORT: u16 = 1883;

/// The fixed identifier under which the bridge connects to the broker.
pub fn broker_client_id() -> (r: &'static str)
    ensures
        r@ == "rust-server"@,
{
    "rust-server"
}

/// The one wildcard topic pattern the bridge subscribes to.
pub fn subscription_topic() -> (r: &'static str)
    ensures
        r@ == "classroom/+/telemetry"@,
{
    "classroom/+/telemetry"
}

/// The broker host used when none is configured.
pub fn default_broker_host() -> (r: &'static str)
    ensures
        r@ == "localhost"@,
{
    "localhost"
}

/// Whether `c` is a decimal digit.
pub open spec fn is_digit(c: char) -> bool {
    48 <= c as u32 <= 57
}

/// The value of a decimal digit.
pub open spec fn digit_val(c: char) -> int {
    c as u32 - 48
}

/// Whether every character of `s` is a decimal digit.
pub open spec fn is_digits(s: Seq<char>) -> bool {
    forall|i: int| 0 <= i < s.len() ==> is_digit(s[i])
}

/// The number written in decimal as `s`.
pub open spec fn dec_value(s: Seq<char>) -> int
    decreases s.len(),
{
    if s.len() == 0 {
        0
    } else {
        dec_value(s.drop_last()) * 10 + digit_val(s.last())
    }
}

/// The port a configured text names: an optional leading plus sign, then
/// decimal digits whose value is a positive number a port can hold; anything
/// else names none.
pub open spec fn port_of(s: Seq<char>) -> Option<u16> {
    let digits = if s.len() > 0 && s[0] == '+' {
        s.skip(1)
    } else {
        s
    };
    if digits.len() > 0 && is_digits(digits) && 1 <= dec_value(digits) <= 65535 {
        Some(dec_value(digits) as u16)
    } else {
        None
    }
}

/// Parses a configured broker port.
pub fn parse_port(s: &str) -> (r: Option<u16>)
    ensures
        r == port_of(s@),
{
    let n = s.unicode_len();
    let mut i: usize = 0;
    if n > 0 && s.get_char(0) == '+' {
        i = 1;
    }
    let ghost start = i as int;
    let ghost digits = if s@.len() > 0 && s@[0] == '+' {
        s@.skip(1)
    } else {
        s@
    };
    proof {
        if start == 0 {
            assert(s@.skip(0) =~= s@);
        }
        assert(digits =~= s@.skip(start));
    }
    if i == n {
        return None;
    }
    let mut acc: u32 = 0;
    let mut too_big = false;
    while i < n
        invariant
            n as nat == s@.len(),
            start <= i <= n,
            start == 0 || start == 1,
            (s@.len() > 0 && s@[0] == '+') <==> start == 1,
            digits == s@.skip(start),
            digits.len() == n - start,
            is_digits(s@.subrange(start, i as int)),
            0 <= dec_value(s@.subrange(start, i as int)),
            too_big <==> dec_value(s@.subrange(start, i as int)) > 65535,
            !too_big ==> acc == dec_value(s@.subrange(start, i as int)),
            acc <= 65535,
        decreases n - i,
    {
        let c = s.get_char(i);
        let v = c as u32;
        if v < 48 || v > 57 {
            proof {
                assert(digits[i - start] == s@[i as int]);
                assert(!is_digit(digits[i - start]));
                assert(!is_digits(digits));
                assert(port_of(s@) is None);
            }
            return None;
        }
        let ghost prefix = s@.subrange(start, i as int);
        proof {
            assert(prefix.push(c).drop_last() =~= prefix);
            assert(prefix.push(c).last() == c);
            assert(s@.subrange(start, i as int + 1) =~= prefix.push(c));
        }
        if too_big {
        } else {
            let next: u32 = acc * 10 + (v - 48);
            if next > 65535 {
                too_big = true;
            } else {
                acc = next;
            }
        }
        i += 1;
    }
    proof {
        assert(s@.subrange(start, n as int) =~= digits);
        assert(is_digits(digits));
    }
    if too_big || acc == 0 {
        None
    } else {
        Some(acc as u16)
    }
}

/// A fatal startup error: the process must not proceed.
#[derive(Clone, Copy, Debug, PartialEq, Eq, Structural)]
pub enum ConfigError {
    /// No shared client secret was configured.
    MissingSecret,
    /// The configured broker port does not name a port.
    InvalidPort,
}

/// Everything the bridge needs at startup.
pub struct Config {
    /// The shared secret every client must present.
    pub secret: String,
    /// The broker host to connect to.
    pub broker_host: String,
    /// The broker port to connect to.
    pub broker_port: u16,
    /// The broker credential pair; absent for an unauthenticated session.
    pub broker_credentials: Option<(String, String)>,
}

/// Builds the startup configuration from the recognized options, each absent
/// when unset. The secret is required; host and port fall back to their
/// defaults; a configured port that names no port is fatal; the credential
/// pair is kept only when both halves are present.
pub fn build_config(
    secret: Option<String>,
    host: Option<String>,
    port_text: Option<String>,
    username: Option<String>,
    password: Option<String>,
) -> (r: Result<Config, ConfigError>)
    ensures
        r is Err <==> (secret is None || (port_text matches Some(p) && port_of(p@) is None)),
        r matches Err(e) ==> (e is MissingSecret <==> secret is None),
        r matches Ok(c) ==> {
            &&& secret matches Some(s) && c.secret@ == s@
            &&& match host {
                Some(h) => c.broker_host@ == h@,
                None => c.broker_host@ == "localhost"@,
            }
            &&& match port_text {
                Some(p) => port_of(p@) == Some(c.broker_port),
                None => c.broker_port == DEFAULT_BROKER_PORT,
            }
            &&& match (username, password) {
                (Some(u), Some(p)) => c.broker_credentials matches Some(cred) && cred.0@ == u@
                    && cred.1@ == p@,
                _ => c.broker_credentials is None,
            }
        },
{
    let secret = match secret {
        Some(s) => s,
        None => {
            return Err(ConfigError::MissingSecret);
        },
    };
    let broker_port = match port_text {
        Some(p) => match parse_port(p.as_str()) {
            Some(v) => v,
            None => {
                return Err(ConfigError::InvalidPort);
            },
        },
        None => DEFAULT_BROKER_PORT,
    };
    let broker_host = match host {
        Some(h) => h,
        None => default_broker_host().to_owned(),
    };
    let broker_credentials = match (username, password) {
        (Some(u), Some(p)) => Some((u, p)),
        _ => None,
    };
    Ok(Config { secret, broker_host, broker_port, broker_credentials })
}

} // verus!
