//! Plain values shared by the relay: file metadata, disconnect reasons,
//! query parameters and configuration.
use vstd::prelude::*;

verus! {

/// What a sender announced about the file it is about to send.
#[derive(Debug, Clone, PartialEq, Eq)]
pub struct FileMetadata {
    pub name: String,
    pub size: u64,
    pub mime_type: String,
}

impl FileMetadata {
    /// A field-by-field copy.
    pub fn copied(&self) -> (r: Self)
        ensures
            r == *self,
    {
        FileMetadata { name: self.name.clone(), size: self.size, mime_type: self.mime_type.clone() }
    }
}

/// Why a connection's reader stopped.
#[derive(Debug, Clone, Copy, PartialEq, Eq, Structural)]
pub enum DisconnectReason {
    /// The peer closed with a reason mentioning a completed transfer: the
    /// counterparty is not notified.
    TransferCompleted,
    Other,
}

/// Query parameters of the upgrade request: the peer's id.
#[derive(Debug, Clone)]
pub struct RelayQueryParams {
    pub id: String,
}

/// Process configuration.
#[derive(Debug, Clone)]
pub struct Config {
    pub rust_env: String,
    pub port: u16,
}

/// Port used when `PORT` is absent or unreadable.
pub const DEFAULT_PORT: u16 = 8080;

/// Decimal value of a run of ASCII digits.
pub open spec fn decimal_value(s: Seq<char>) -> int
    decreases s.len(),
{
    if s.len() == 0 {
        0
    } else {
        decimal_value(s.drop_last()) * 10 + ((s.last() as u32) as int - ('0' as u32) as int)
    }
}

/// True when every character of `s` is an ASCII digit.
pub open spec fn all_digits(s: Seq<char>) -> bool {
    forall|i: int| 0 <= i < s.len() ==> '0' <= #[trigger] s[i] <= '9'
}

/// The port number that `s` spells, as `u16`'s `FromStr` reads it: an
/// optional `+` followed by one or more ASCII digits, within range.
pub open spec fn port_number(s: Seq<char>) -> Option<u16> {
    let digits = if s.len() > 0 && s[0] == '+' {
        s.drop_first()
    } else {
        s
    };
    if digits.len() > 0 && all_digits(digits) && decimal_value(digits) <= u16::MAX {
        Some(decimal_value(digits) as u16)
    } else {
        None
    }
}

/// Reads a port number; `None` when `s` is not one.
pub fn parse_port(s: &str) -> (r: Option<u16>)
    ensures
        r == port_number(s@),
{
    let n = s.unicode_len();
    let mut i: usize = 0;
    if n > 0 && s.get_char(0) == '+' {
        i = 1;
    }
    let start = i;
    let ghost digits = if s@.len() > 0 && s@[0] == '+' {
        s@.drop_first()
    } else {
        s@
    };
    assert(digits =~= s@.subrange(start as int, n as int));
    if start == n {
        return None;
    }
    let mut value: u32 = 0;
    while i < n
        invariant
            n == s@.len(),
            start <= i <= n,
            digits == s@.subrange(start as int, n as int),
            digits == (if s@.len() > 0 && s@[0] == '+' {
                s@.drop_first()
            } else {
                s@
            }),
            all_digits(s@.subrange(start as int, i as int)),
            value == decimal_value(s@.subrange(start as int, i as int)),
            value <= u16::MAX,
        decreases n - i,
    {
        let c = s.get_char(i);
        assert(s@.subrange(start as int, i + 1).drop_last() =~= s@.subrange(
            start as int,
            i as int,
        ));
        if c < '0' || c > '9' {
            assert(!all_digits(digits)) by {
                assert(digits[i - start] == c);
            }
            return None;
        }
        let d = (c as u32) - ('0' as u32);
        let next = value * 10 + d;
        if next > 65535 {
            proof {
                if all_digits(digits) {
                    lemma_decimal_value_grows(digits, (i + 1 - start) as int);
                    assert(digits.subrange(0, (i + 1 - start) as int) =~= s@.subrange(
                        start as int,
                        i + 1,
                    ));
                }
            }
            return None;
        }
        value = next;
        i = i + 1;
        assert forall|t: int| 0 <= t < s@.subrange(start as int, i as int).len() implies '0'
            <= #[trigger] s@.subrange(start as int, i as int)[t] <= '9' by {
            if t < i - 1 - start {
                assert(s@.subrange(start as int, i as int)[t] == s@.subrange(
                    start as int,
                    i - 1,
                )[t]);
            }
        }
    }
    assert(s@.subrange(start as int, n as int) =~= digits);
    Some(value as u16)
}

/// A longer run of digits never reads as a smaller number.
proof fn lemma_decimal_value_grows(s: Seq<char>, k: int)
    requires
        0 <= k <= s.len(),
        all_digits(s),
    ensures
        0 <= decimal_value(s.subrange(0, k)) <= decimal_value(s),
    decreases s.len(),
{
    if s.len() == 0 {
        assert(s.subrange(0, k) =~= s);
    } else {
        let t = s.drop_last();
        assert forall|i: int| 0 <= i < t.len() implies '0' <= #[trigger] t[i] <= '9' by {
            assert(t[i] == s[i]);
        }
        assert('0' <= s[s.len() - 1]);
        if k < s.len() {
            assert(t.subrange(0, k) =~= s.subrange(0, k));
            lemma_decimal_value_grows(t, k);
        } else {
            lemma_decimal_value_grows(t, 0);
            assert(s.subrange(0, k) =~= s);
        }
    }
}

/// The port that a value of `PORT` selects: the number it spells, else the
/// default.
pub open spec fn configured_port(value: Option<&str>) -> u16 {
    match value {
        Some(v) => match port_number(v@) {
            Some(p) => p,
            None => DEFAULT_PORT,
        },
        None => DEFAULT_PORT,
    }
}

/// The port to listen on: the value of `PORT` when it reads as a port
/// number, else the default.
pub fn port_from_env(value: Option<&str>) -> (r: u16)
    ensures
        r == configured_port(value),
{
    match value {
        Some(v) => match parse_port(v) {
            Some(p) => p,
            None => DEFAULT_PORT,
        },
        None => DEFAULT_PORT,
    }
}

/// The deployment environment: the value of `APP_ENV`, else `production`.
pub fn get_rust_env(app_env: Option<String>) -> (r: String)
    ensures
        r@ == (match app_env {
            Some(v) => v@,
            None => "production"@,
        }),
{
    match app_env {
        Some(v) => v,
        None => "production".to_owned(),
    }
}

impl Config {
    /// Configuration from the values of `APP_ENV` and `PORT`.
    pub fn from_env_values(app_env: Option<String>, port: Option<&str>) -> (r: Config)
        ensures
            r.rust_env@ == (match app_env {
                Some(v) => v@,
                None => "production"@,
            }),
            r.port == configured_port(port),
    {
        Config { rust_env: get_rust_env(app_env), port: port_from_env(port) }
    }
}

} // verus!
