use vstd::prelude::*;

use crate::message::Filters;

verus! {

/// Whether `c` is an ASCII decimal digit.
pub open spec fn is_digit(c: char) -> bool {
    '0' <= c && c <= '9'
}

/// The number that a string of decimal digits denotes.
pub open spec fn decimal_value(s: Seq<char>) -> int
    decreases s.len(),
{
    if s.len() == 0 {
        0
    } else {
        decimal_value(s.drop_last()) * 10 + (s.last() as int - '0' as int)
    }
}

/// A non-empty string of decimal digits whose value fits in a `u64`.
pub open spec fn is_u64_decimal(s: Seq<char>) -> bool {
    &&& s.len() > 0
    &&& forall|i: int| 0 <= i < s.len() ==> is_digit(#[trigger] s[i])
    &&& decimal_value(s) <= u64::MAX
}

proof fn lemma_decimal_value_nonneg(s: Seq<char>)
    requires
        forall|i: int| 0 <= i < s.len() ==> is_digit(#[trigger] s[i]),
    ensures
        decimal_value(s) >= 0,
    decreases s.len(),
{
    if s.len() > 0 {
        let p = s.drop_last();
        assert forall|i: int| 0 <= i < p.len() implies is_digit(#[trigger] p[i]) by {
            assert(p[i] == s[i]);
        }
        lemma_decimal_value_nonneg(p);
    }
}

/// Reads a non-negative decimal number; `None` unless `s` is a non-empty
/// string of digits whose value fits in a `u64`.
pub fn parse_u64(s: &str) -> (r: Option<u64>)
    ensures
        r == (if is_u64_decimal(s@) {
            Some(decimal_value(s@) as u64)
        } else {
            None
        }),
{
    let n = s.unicode_len();
    if n == 0 {
        return None;
    }
    let mut val: u64 = 0;
    let mut overflow = false;
    let mut i: usize = 0;
    while i < n
        invariant
            n == s@.len(),
            0 <= i <= n,
            forall|j: int| 0 <= j < i ==> is_digit(#[trigger] s@[j]),
            !overflow ==> val as int == decimal_value(s@.subrange(0, i as int)),
            overflow ==> decimal_value(s@.subrange(0, i as int)) > u64::MAX,
        decreases n - i,
    {
        let c = s.get_char(i);
        if !('0' <= c && c <= '9') {
            return None;
        }
        let d = (c as u32 - '0' as u32) as u64;
        let ghost prefix = s@.subrange(0, i as int);
        let ghost next = s@.subrange(0, i + 1);
        assert(next.drop_last() =~= prefix);
        assert(next.last() == c);
        assert(decimal_value(next) == decimal_value(prefix) * 10 + d);
        proof {
            assert forall|j: int| 0 <= j < prefix.len() implies is_digit(#[trigger] prefix[j]) by {
                assert(prefix[j] == s@[j]);
            }
            lemma_decimal_value_nonneg(prefix);
        }
        if !overflow {
            match val.checked_mul(10) {
                Some(v) => match v.checked_add(d) {
                    Some(w) => {
                        val = w;
                    },
                    None => {
                        overflow = true;
                    },
                },
                None => {
                    overflow = true;
                    assert(decimal_value(prefix) * 10 + d > u64::MAX) by (nonlinear_arith)
                        requires
                            decimal_value(prefix) * 10 > u64::MAX,
                            d >= 0,
                    ;
                },
            }
        } else {
            assert(decimal_value(prefix) * 10 + d > u64::MAX) by (nonlinear_arith)
                requires
                    decimal_value(prefix) > u64::MAX,
                    d >= 0,
            ;
        }
        i = i + 1;
    }
    assert(s@.subrange(0, n as int) =~= s@);
    if overflow {
        None
    } else {
        Some(val)
    }
}

/// A setting read at startup.
#[derive(Clone, Copy, PartialEq, Eq, Structural, Debug)]
pub enum Setting {
    UserToken,
    ContactChannelId,
    ContactId,
}

/// The environment variable that holds each setting.
pub open spec fn var_name_of(s: Setting) -> Seq<char> {
    match s {
        Setting::UserToken => "USER_TOKEN"@,
        Setting::ContactChannelId => "CONTACT_CHANNEL_ID"@,
        Setting::ContactId => "CONTACT_ID"@,
    }
}

impl Setting {
    /// The name of the environment variable that holds this setting.
    pub fn var_name(&self) -> (r: &'static str)
        ensures
            r@ == var_name_of(*self),
    {
        match self {
            Setting::UserToken => "USER_TOKEN",
            Setting::ContactChannelId => "CONTACT_CHANNEL_ID",
            Setting::ContactId => "CONTACT_ID",
        }
    }
}

/// Why the startup settings were refused.
#[derive(Clone, Copy, PartialEq, Eq, Structural, Debug)]
pub enum ConfigError {
    /// The setting is not present.
    Missing(Setting),
    /// The setting is present but is not a decimal number that fits in 64 bits.
    NotANumber(Setting),
}

/// The settings a session needs: the account's token and the conversation
/// to follow.
pub struct Config {
    pub token: String,
    pub filters: Filters,
}

/// Reads one numeric setting.
pub fn parse_id(setting: Setting, value: Option<String>) -> (r: Result<u64, ConfigError>)
    ensures
        match value {
            None => r == Err::<u64, ConfigError>(ConfigError::Missing(setting)),
            Some(v) => if is_u64_decimal(v@) {
                r == Ok::<u64, ConfigError>(decimal_value(v@) as u64)
            } else {
                r == Err::<u64, ConfigError>(ConfigError::NotANumber(setting))
            },
        },
{
    match value {
        None => Err(ConfigError::Missing(setting)),
        Some(v) => match parse_u64(v.as_str()) {
            Some(n) => Ok(n),
            None => Err(ConfigError::NotANumber(setting)),
        },
    }
}

/// Builds the startup settings from the three raw values, checked in the
/// order token, channel, contact; the first problem found is reported.
pub fn parse_config(token: Option<String>, channel: Option<String>, contact: Option<String>) -> (r:
    Result<Config, ConfigError>)
    ensures
        token.is_none() ==> r == Err::<Config, ConfigError>(ConfigError::Missing(Setting::UserToken)),
        token.is_some() && channel.is_none() ==> r == Err::<Config, ConfigError>(
            ConfigError::Missing(Setting::ContactChannelId),
        ),
        token.is_some() && channel.is_some() && !is_u64_decimal(channel.unwrap()@) ==> r == Err::<
            Config,
            ConfigError,
        >(ConfigError::NotANumber(Setting::ContactChannelId)),
        token.is_some() && channel.is_some() && is_u64_decimal(channel.unwrap()@) && contact.is_none()
            ==> r == Err::<Config, ConfigError>(ConfigError::Missing(Setting::ContactId)),
        token.is_some() && channel.is_some() && is_u64_decimal(channel.unwrap()@) && contact.is_some()
            && !is_u64_decimal(contact.unwrap()@) ==> r == Err::<Config, ConfigError>(
            ConfigError::NotANumber(Setting::ContactId),
        ),
        r.is_ok() <==> (token.is_some() && channel.is_some() && is_u64_decimal(channel.unwrap()@)
            && contact.is_some() && is_u64_decimal(contact.unwrap()@)),
        r.is_ok() ==> ({
            let c = r.unwrap();
            &&& c.token@ == token.unwrap()@
            &&& c.filters.channel_id == decimal_value(channel.unwrap()@) as u64
            &&& c.filters.contact_id == decimal_value(contact.unwrap()@) as u64
        }),
{
    let token = match token {
        None => {
            return Err(ConfigError::Missing(Setting::UserToken));
        },
        Some(t) => t,
    };
    let channel_id = match parse_id(Setting::ContactChannelId, channel) {
        Ok(n) => n,
        Err(e) => {
            return Err(e);
        },
    };
    let contact_id = match parse_id(Setting::ContactId, contact) {
        Ok(n) => n,
        Err(e) => {
            return Err(e);
        },
    };
    Ok(Config { token, filters: Filters::new(contact_id, channel_id) })
}

} // verus!
