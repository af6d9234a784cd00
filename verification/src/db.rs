//! Database pool settings read from the process environment.
use vstd::prelude::*;
use vstd::utf8::encode_utf8;

verus! {

/// Connection pool settings.
#[derive(Clone, Copy, Debug, PartialEq, Eq, Structural)]
pub struct DbPoolConfig {
    pub max_connections: u32,
    pub min_connections: u32,
    pub acquire_timeout_secs: u64,
    pub idle_timeout_secs: u64,
    pub max_lifetime_secs: u64,
}

/// Whether `b` is an ASCII decimal digit.
pub open spec fn is_digit(b: u8) -> bool {
    48 <= b <= 57
}

/// The number that a string of decimal digits writes.
pub open spec fn digits_value(s: Seq<u8>) -> int
    decreases s.len(),
{
    if s.len() == 0 {
        0
    } else {
        digits_value(s.drop_last()) * 10 + (s.last() - 48)
    }
}

/// The digits of an unsigned number: the text without one leading `+`.
pub open spec fn unsigned_digits(s: Seq<u8>) -> Seq<u8> {
    if s.len() > 0 && s[0] == 43 {
        s.drop_first()
    } else {
        s
    }
}

/// How Rust reads an unsigned integer of at most `max` from text: an
/// optional `+`, then one or more decimal digits, and nothing else.
pub open spec fn parse_unsigned(s: Seq<u8>, max: int) -> Option<int> {
    let d = unsigned_digits(s);
    if d.len() > 0 && (forall|i: int| 0 <= i < d.len() ==> is_digit(#[trigger] d[i])) && digits_value(d) <= max {
        Some(digits_value(d))
    } else {
        None
    }
}

/// The value of the first variable named `key`, if any.
pub open spec fn env_value(env: Seq<(String, String)>, key: Seq<char>) -> Option<Seq<char>>
    decreases env.len(),
{
    if env.len() == 0 {
        None
    } else if env[0].0@ == key {
        Some(env[0].1@)
    } else {
        env_value(env.drop_first(), key)
    }
}

/// The setting named `key`: its value read as an unsigned integer of at
/// most `max`, or `default` when the variable is absent or unreadable.
pub open spec fn env_setting(env: Seq<(String, String)>, key: Seq<char>, default: int, max: int) -> int {
    match env_value(env, key) {
        Some(v) => match parse_unsigned(encode_utf8(v), max) {
            Some(x) => x,
            None => default,
        },
        None => default,
    }
}

proof fn lemma_digits_value_nonneg(s: Seq<u8>)
    requires
        forall|i: int| 0 <= i < s.len() ==> is_digit(#[trigger] s[i]),
    ensures
        digits_value(s) >= 0,
    decreases s.len(),
{
    if s.len() > 0 {
        let d = s.drop_last();
        assert forall|i: int| 0 <= i < d.len() implies is_digit(#[trigger] d[i]) by {
            assert(d[i] == s[i]);
        }
        lemma_digits_value_nonneg(d);
        assert(is_digit(s[s.len() - 1]));
    }
}

/// More digits never make a smaller number.
proof fn lemma_digits_value_grows(s: Seq<u8>, k: int)
    requires
        0 <= k <= s.len(),
        forall|i: int| 0 <= i < s.len() ==> is_digit(#[trigger] s[i]),
    ensures
        digits_value(s) >= digits_value(s.take(k)),
    decreases s.len(),
{
    if k < s.len() {
        let d = s.drop_last();
        assert forall|i: int| 0 <= i < d.len() implies is_digit(#[trigger] d[i]) by {
            assert(d[i] == s[i]);
        }
        lemma_digits_value_grows(d, k);
        lemma_digits_value_nonneg(d);
        assert(d.take(k) =~= s.take(k));
        assert(is_digit(s[s.len() - 1]));
    } else {
        assert(s.take(k) =~= s);
    }
}

/// Reads `s` as an unsigned decimal integer of at most `max`.
fn parse_decimal(s: &str, max: u64) -> (r: Option<u64>)
    requires
        max >= 9,
    ensures
        match r {
            Some(x) => parse_unsigned(encode_utf8(s@), max as int) == Some(x as int),
            None => parse_unsigned(encode_utf8(s@), max as int) is None,
        },
{
    let bytes = s.as_bytes();
    let ghost all = bytes@;
    let start: usize = if bytes.len() > 0 && bytes[0] == 43u8 {
        1
    } else {
        0
    };
    let ghost d = unsigned_digits(all);
    proof {
        if start == 1 {
            assert(d =~= all.subrange(1, all.len() as int));
        } else {
            assert(d =~= all);
        }
    }
    if start == bytes.len() {
        return None;
    }
    let mut value: u64 = 0;
    let mut i: usize = start;
    while i < bytes.len()
        invariant
            start <= i <= bytes.len(),
            bytes@ == all,
            all == encode_utf8(s@),
            max >= 9,
            d == all.subrange(start as int, all.len() as int),
            d == unsigned_digits(all),
            d.len() > 0,
            forall|j: int| 0 <= j < i - start ==> is_digit(#[trigger] d[j]),
            value as int == digits_value(d.take(i - start)),
            value <= max,
        decreases bytes.len() - i,
    {
        let b = bytes[i];
        proof {
            assert(d[i - start] == b);
        }
        if !(48u8 <= b && b <= 57u8) {
            return None;
        }
        let digit = (b - 48u8) as u64;
        proof {
            assert(d.take(i - start + 1).drop_last() =~= d.take(i - start));
        }
        if value > (max - digit) / 10 {
            proof {
                assert((value as int) * 10 + digit > max) by (nonlinear_arith)
                    requires
                        value > (max - digit) / 10,
                        max >= 9,
                        0 <= digit <= 9;
                let k = i - start + 1;
                assert(d.take(k as int).last() == b);
                assert(digits_value(d.take(k as int)) == value * 10 + digit);
                if forall|j: int| 0 <= j < d.len() ==> is_digit(#[trigger] d[j]) {
                    lemma_digits_value_grows(d, k as int);
                }
            }
            return None;
        }
        value = value * 10 + digit;
        i = i + 1;
    }
    proof {
        assert(d.take(d.len() as int) =~= d);
    }
    Some(value)
}

/// The value of the first variable named `key`, if any.
fn lookup_env<'a>(env: &'a Vec<(String, String)>, key: &str) -> (r: Option<&'a String>)
    ensures
        match r {
            Some(v) => env_value(env@, key@) == Some(v@),
            None => env_value(env@, key@) is None,
        },
{
    let wanted = key.to_owned();
    let mut i: usize = 0;
    proof {
        assert(env@.skip(0) =~= env@);
    }
    while i < env.len()
        invariant
            i <= env.len(),
            wanted@ == key@,
            env_value(env@, key@) == env_value(env@.skip(i as int), key@),
        decreases env.len() - i,
    {
        proof {
            assert(env@.skip(i as int)[0] == env@[i as int]);
            assert(env@.skip(i as int).drop_first() =~= env@.skip(i as int + 1));
        }
        if env[i].0 == wanted {
            return Some(&env[i].1);
        }
        i = i + 1;
    }
    None
}

/// The setting named `key`, read as an unsigned integer of at most `max`,
/// or `default`.
fn env_number(env: &Vec<(String, String)>, key: &str, default: u64, max: u64) -> (r: u64)
    requires
        max >= 9,
    ensures
        r == env_setting(env@, key@, default as int, max as int),
{
    match lookup_env(env, key) {
        None => default,
        Some(v) => match parse_decimal(v.as_str(), max) {
            Some(x) => x,
            None => default,
        },
    }
}

impl DbPoolConfig {
    /// Reads the pool settings from the environment `env` (its variables
    /// as name and value): `DB_MAX_CONNECTIONS` (default 10),
    /// `DB_MIN_CONNECTIONS` (1), `DB_ACQUIRE_TIMEOUT_SECS` (5),
    /// `DB_IDLE_TIMEOUT_SECS` (300) and `DB_MAX_LIFETIME_SECS` (1800). A
    /// variable that is absent or does not read as a number of the
    /// setting's type leaves the default.
    pub fn from_env(env: &Vec<(String, String)>) -> (c: DbPoolConfig)
        ensures
            c.max_connections == env_setting(env@, "DB_MAX_CONNECTIONS"@, 10, u32::MAX as int),
            c.min_connections == env_setting(env@, "DB_MIN_CONNECTIONS"@, 1, u32::MAX as int),
            c.acquire_timeout_secs == env_setting(env@, "DB_ACQUIRE_TIMEOUT_SECS"@, 5, u64::MAX as int),
            c.idle_timeout_secs == env_setting(env@, "DB_IDLE_TIMEOUT_SECS"@, 300, u64::MAX as int),
            c.max_lifetime_secs == env_setting(env@, "DB_MAX_LIFETIME_SECS"@, 1800, u64::MAX as int),
    {
        DbPoolConfig {
            max_connections: env_number(env, "DB_MAX_CONNECTIONS", 10, u32::MAX as u64) as u32,
            min_connections: env_number(env, "DB_MIN_CONNECTIONS", 1, u32::MAX as u64) as u32,
            acquire_timeout_secs: env_number(env, "DB_ACQUIRE_TIMEOUT_SECS", 5, u64::MAX),
            idle_timeout_secs: env_number(env, "DB_IDLE_TIMEOUT_SECS", 300, u64::MAX),
            max_lifetime_secs: env_number(env, "DB_MAX_LIFETIME_SECS", 1800, u64::MAX),
        }
    }
}

} // verus!
