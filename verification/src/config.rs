//! Configuration of the relay, from the raw values of its environment variables.

use vstd::prelude::*;

use crate::text::chars_of;

verus! {

/// Configuration errors surfaced during process startup.
#[derive(Debug)]
pub enum ConfigError {
    MissingVar(&'static str),
    InvalidNumber(&'static str, String),
}

/// The raw values of the relay's environment variables: `None` where a
/// variable is unset or not valid Unicode.
pub struct EnvValues {
    pub bind_addr: Option<String>,
    pub auth_token: Option<String>,
    pub adguard_base_url: Option<String>,
    pub adguard_username: Option<String>,
    pub adguard_password: Option<String>,
    pub allowed_ttl_secs: Option<String>,
    pub blocked_ttl_secs: Option<String>,
}

/// Runtime settings of the relay. The bind address is kept as text; turning
/// it into a socket address is left to the program that binds it.
pub struct Settings {
    pub bind_addr: String,
    pub auth_token: String,
    pub adguard_base_url: String,
    pub adguard_username: Option<String>,
    pub adguard_password: Option<String>,
    pub allowed_ttl_secs: u64,
    pub blocked_ttl_secs: u64,
}

/// Whether `c` is a decimal digit.
pub open spec fn is_digit(c: char) -> bool {
    '0' <= c <= '9'
}

/// The number that the decimal digits `s` spell.
pub open spec fn digits_value(s: Seq<char>) -> nat
    decreases s.len(),
{
    if s.len() == 0 {
        0
    } else {
        digits_value(s.drop_last()) * 10 + ((s.last() as int) - ('0' as int)) as nat
    }
}

/// The value of a run of one or more decimal digits, when it fits a `u64`.
pub open spec fn digits_u64(d: Seq<char>) -> Option<u64> {
    if d.len() > 0 && (forall|i: int| 0 <= i < d.len() ==> is_digit(#[trigger] d[i]))
        && digits_value(d) <= u64::MAX {
        Some(digits_value(d) as u64)
    } else {
        None
    }
}

/// What `str::parse::<u64>` gives: an optional `+` sign, then one or more
/// decimal digits whose value fits a `u64`.
pub open spec fn parsed_u64(s: Seq<char>) -> Option<u64> {
    if s.len() > 0 && s[0] == '+' {
        digits_u64(s.drop_first())
    } else {
        digits_u64(s)
    }
}

/// A prefix of a run of digits never spells a larger number than the whole run.
proof fn lemma_prefix_value_le(d: Seq<char>, k: int)
    requires
        0 <= k <= d.len(),
        forall|i: int| 0 <= i < d.len() ==> is_digit(#[trigger] d[i]),
    ensures
        digits_value(d.subrange(0, k)) <= digits_value(d),
    decreases d.len(),
{
    if k < d.len() {
        let p = d.drop_last();
        assert forall|i: int| 0 <= i < p.len() implies is_digit(#[trigger] p[i]) by {
            assert(p[i] == d[i]);
        }
        lemma_prefix_value_le(p, k);
        assert(p.subrange(0, k) =~= d.subrange(0, k));
    } else {
        assert(d.subrange(0, k) =~= d);
    }
}

/// Parses a decimal `u64` as `str::parse::<u64>` does.
pub fn parse_u64(s: &str) -> (r: Option<u64>)
    ensures
        r == parsed_u64(s@),
{
    let chars = chars_of(s);
    let ghost d = if s@.len() > 0 && s@[0] == '+' {
        s@.drop_first()
    } else {
        s@
    };
    let n = chars.len();
    let first: usize = if n > 0 && chars[0] == '+' {
        1
    } else {
        0
    };
    assert(d =~= chars@.subrange(first as int, n as int));
    if first == n {
        return None;
    }
    let mut i: usize = first;
    while i < n
        invariant
            n == chars@.len(),
            first <= i <= n,
            d == chars@.subrange(first as int, n as int),
            chars@ == s@,
            d == (if s@.len() > 0 && s@[0] == '+' {
                s@.drop_first()
            } else {
                s@
            }),
            forall|j: int| first <= j < i ==> is_digit(#[trigger] chars@[j]),
        decreases n - i,
    {
        let c = chars[i];
        if !('0' <= c && c <= '9') {
            assert(d[i - first] == chars@[i as int]);
            assert(!is_digit(d[i - first]));
            return None;
        }
        i = i + 1;
    }
    assert forall|j: int| 0 <= j < d.len() implies is_digit(#[trigger] d[j]) by {
        assert(d[j] == chars@[j + first]);
    }
    let mut acc: u64 = 0;
    let mut k: usize = first;
    assert(d.subrange(0, 0) =~= Seq::<char>::empty());
    while k < n
        invariant
            n == chars@.len(),
            first <= k <= n,
            d == chars@.subrange(first as int, n as int),
            chars@ == s@,
            d == (if s@.len() > 0 && s@[0] == '+' {
                s@.drop_first()
            } else {
                s@
            }),
            forall|j: int| 0 <= j < d.len() ==> is_digit(#[trigger] d[j]),
            acc == digits_value(d.subrange(0, k - first)),
        decreases n - k,
    {
        let c = chars[k];
        assert(c == d[k - first]);
        let digit = ((c as u32) - ('0' as u32)) as u64;
        let ghost next = d.subrange(0, k - first + 1);
        assert(next.drop_last() =~= d.subrange(0, k - first));
        assert(digits_value(next) == acc * 10 + digit);
        match acc.checked_mul(10) {
            None => {
                proof {
                    lemma_prefix_value_le(d, k - first + 1);
                }
                return None;
            },
            Some(m) => match m.checked_add(digit) {
                None => {
                    proof {
                        lemma_prefix_value_le(d, k - first + 1);
                                }
                    return None;
                },
                Some(v) => {
                    acc = v;
                },
            },
        }
        k = k + 1;
    }
    assert(d.subrange(0, n - first) =~= d);
    Some(acc)
}

/// Reads a required variable: its value, or `MissingVar` when it is unset.
pub fn read_var(name: &'static str, value: Option<String>) -> (r: Result<String, ConfigError>)
    ensures
        match value {
            Some(v) => r == Ok::<String, ConfigError>(v),
            None => r matches Err(ConfigError::MissingVar(n)) && n@ == name@,
        },
{
    match value {
        Some(v) => Ok(v),
        None => Err(ConfigError::MissingVar(name)),
    }
}

/// Reads an optional variable, treating an empty value as unset.
pub fn read_optional_var(value: Option<String>) -> (r: Option<String>)
    ensures
        r == (match value {
            Some(v) => if v@.len() == 0 {
                None
            } else {
                Some(v)
            },
            None => None,
        }),
{
    match value {
        Some(v) => if v.as_str().is_empty() {
            None
        } else {
            Some(v)
        },
        None => None,
    }
}

/// Reads a numeric variable: its value when set and a valid `u64`,
/// `InvalidNumber` with the text when set but not a number, the default
/// when unset.
pub fn read_u64(name: &'static str, value: Option<String>, default: u64) -> (r: Result<
    u64,
    ConfigError,
>)
    ensures
        match value {
            None => r == Ok::<u64, ConfigError>(default),
            Some(v) => match parsed_u64(v@) {
                Some(n) => r == Ok::<u64, ConfigError>(n),
                None => r matches Err(ConfigError::InvalidNumber(n, t)) && n@ == name@ && t == v,
            },
        },
{
    match value {
        Some(v) => match parse_u64(v.as_str()) {
            Some(n) => Ok(n),
            None => Err(ConfigError::InvalidNumber(name, v)),
        },
        None => Ok(default),
    }
}

} // verus!

verus! {

/// The value of an optional variable: unset and empty both mean `None`.
pub open spec fn optional_value(value: Option<String>) -> Option<String> {
    match value {
        Some(v) => if v@.len() == 0 {
            None
        } else {
            Some(v)
        },
        None => None,
    }
}

/// The value of a numeric variable: the default when unset, `None` when set
/// but not a valid `u64`.
pub open spec fn number_value(value: Option<String>, default: u64) -> Option<u64> {
    match value {
        None => Some(default),
        Some(v) => parsed_u64(v@),
    }
}

/// Default TTL, in seconds, of an allowed decision.
pub const DEFAULT_ALLOWED_TTL_SECS: u64 = 3600;

/// Default TTL, in seconds, of a blocked decision.
pub const DEFAULT_BLOCKED_TTL_SECS: u64 = 86_400;

/// The bind address text: the variable's value, else the default listen address.
pub fn bind_addr_text(value: Option<String>) -> (r: String)
    ensures
        match value {
            Some(v) => r == v,
            None => r@ == "0.0.0.0:8080"@,
        },
{
    match value {
        Some(v) => v,
        None => "0.0.0.0:8080".to_owned(),
    }
}

/// The AdGuard base URL: the variable's value, else the compose-network address.
pub fn adguard_base_url_text(value: Option<String>) -> (r: String)
    ensures
        match value {
            Some(v) => r == v,
            None => r@ == "http://adguardhome:3000"@,
        },
{
    match value {
        Some(v) => v,
        None => "http://adguardhome:3000".to_owned(),
    }
}

impl Settings {
    /// Builds the settings from raw variable values, applying only safe
    /// operational defaults for non-secret fields. The auth token has no
    /// default; errors come in the order the variables are read.
    pub fn from_values(env: EnvValues) -> (r: Result<Settings, ConfigError>)
        ensures
            r is Ok <==> (env.auth_token is Some && number_value(
                env.allowed_ttl_secs,
                DEFAULT_ALLOWED_TTL_SECS,
            ) is Some && number_value(env.blocked_ttl_secs, DEFAULT_BLOCKED_TTL_SECS) is Some),
            r matches Ok(s) ==> {
                &&& (match env.bind_addr {
                    Some(v) => s.bind_addr == v,
                    None => s.bind_addr@ == "0.0.0.0:8080"@,
                })
                &&& Some(s.auth_token) == env.auth_token
                &&& (match env.adguard_base_url {
                    Some(v) => s.adguard_base_url == v,
                    None => s.adguard_base_url@ == "http://adguardhome:3000"@,
                })
                &&& s.adguard_username == optional_value(env.adguard_username)
                &&& s.adguard_password == optional_value(env.adguard_password)
                &&& Some(s.allowed_ttl_secs) == number_value(
                    env.allowed_ttl_secs,
                    DEFAULT_ALLOWED_TTL_SECS,
                )
                &&& Some(s.blocked_ttl_secs) == number_value(
                    env.blocked_ttl_secs,
                    DEFAULT_BLOCKED_TTL_SECS,
                )
            },
            r matches Err(ConfigError::MissingVar(n)) ==> env.auth_token is None && n@
                == "RELAY_AUTH_TOKEN"@,
            r matches Err(ConfigError::InvalidNumber(n, t)) ==> env.auth_token is Some && ({
                ||| number_value(env.allowed_ttl_secs, DEFAULT_ALLOWED_TTL_SECS) is None
                    && n@ == "RELAY_ALLOWED_TTL_SECS"@ && env.allowed_ttl_secs == Some(t)
                ||| number_value(env.allowed_ttl_secs, DEFAULT_ALLOWED_TTL_SECS) is Some
                    && number_value(env.blocked_ttl_secs, DEFAULT_BLOCKED_TTL_SECS) is None
                    && n@ == "RELAY_BLOCKED_TTL_SECS"@ && env.blocked_ttl_secs == Some(t)
            }),
    {
        let EnvValues {
            bind_addr,
            auth_token,
            adguard_base_url,
            adguard_username,
            adguard_password,
            allowed_ttl_secs,
            blocked_ttl_secs,
        } = env;
        let bind_addr = bind_addr_text(bind_addr);
        let auth_token = match read_var("RELAY_AUTH_TOKEN", auth_token) {
            Ok(v) => v,
            Err(e) => return Err(e),
        };
        let adguard_base_url = adguard_base_url_text(adguard_base_url);
        let adguard_username = read_optional_var(adguard_username);
        let adguard_password = read_optional_var(adguard_password);
        let allowed_ttl_secs = match read_u64(
            "RELAY_ALLOWED_TTL_SECS",
            allowed_ttl_secs,
            DEFAULT_ALLOWED_TTL_SECS,
        ) {
            Ok(v) => v,
            Err(e) => return Err(e),
        };
        let blocked_ttl_secs = match read_u64(
            "RELAY_BLOCKED_TTL_SECS",
            blocked_ttl_secs,
            DEFAULT_BLOCKED_TTL_SECS,
        ) {
            Ok(v) => v,
            Err(e) => return Err(e),
        };
        Ok(
            Settings {
                bind_addr,
                auth_token,
                adguard_base_url,
                adguard_username,
                adguard_password,
                allowed_ttl_secs,
                blocked_ttl_secs,
            },
        )
    }
}

} // verus!
