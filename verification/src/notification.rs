//! Configuration change notifications: which transport carries them, and the names of the
//! Redis channels they are published on.
use vstd::prelude::*;
use crate::text::{all_digits, chars_of, digits_value, is_digit, lemma_digits_prefix_le};

verus! {

/// How configuration changes are delivered.
#[derive(Clone, Debug)]
pub enum NotificationConfig {
    /// An in-memory broadcast channel (single node).
    Channel { buffer_size: usize },
    /// Redis publish/subscribe (several nodes).
    Redis { channel_prefix: String, redis_url: String },
}

/// The channel prefix used when none is configured.
pub open spec fn default_channel_prefix() -> Seq<char> {
    "conductor_config"@
}

impl NotificationConfig {
    /// An in-memory channel of 1000 events.
    pub fn default() -> (r: NotificationConfig)
        ensures
            r matches NotificationConfig::Channel { buffer_size } && buffer_size == 1000,
    {
        NotificationConfig::Channel { buffer_size: 1000 }
    }
}

/// What `str::to_lowercase` makes of a string.
pub uninterp spec fn str_lowercase(s: Seq<char>) -> Seq<char>;

/// `str::to_lowercase`.
#[verifier::external_body]
fn to_lowercase(s: &str) -> (r: String)
    ensures
        r@ == str_lowercase(s@),
{
    s.to_lowercase()
}

/// The digits of a decimal: the text after an optional leading `+`.
pub open spec fn digits_part(s: Seq<char>) -> Seq<char> {
    if s.len() > 0 && s[0] == '+' { s.skip(1) } else { s }
}

/// What `str::parse::<usize>` accepts: an optional `+`, then at least one ASCII digit and
/// nothing else, with a value that fits in `usize`.
pub open spec fn spec_parse_usize(s: Seq<char>) -> Option<usize> {
    let digits = digits_part(s);
    if digits.len() > 0 && all_digits(digits) && digits_value(digits) <= usize::MAX {
        Some(digits_value(digits) as usize)
    } else {
        None
    }
}

/// Parses a decimal `usize` as `str::parse` does.
pub fn parse_usize(s: &str) -> (r: Option<usize>)
    ensures
        r == spec_parse_usize(s@),
{
    let cs = chars_of(s);
    let start: usize = if cs.len() > 0 && cs[0] == '+' { 1 } else { 0 };
    let ghost digits = digits_part(s@);
    assert(cs@.skip(start as int) =~= digits);
    if start >= cs.len() {
        return None;
    }
    let mut value: usize = 0;
    let mut i: usize = start;
    while i < cs.len()
        invariant
            cs@ == s@,
            start <= i <= cs@.len(),
            digits == cs@.skip(start as int),
            digits == digits_part(s@),
            forall|k: int| 0 <= k < i - start ==> is_digit(#[trigger] digits[k]),
            value == digits_value(cs@.subrange(start as int, i as int)),
        decreases cs@.len() - i,
    {
        let c = cs[i];
        if !('0' <= c && c <= '9') {
            assert(!is_digit(digits[i - start]));
            assert(!all_digits(digits));
            assert(spec_parse_usize(s@) is None);
            return None;
        }
        let d: usize = ((c as u32) - 48) as usize;
        assert(cs@.subrange(start as int, i + 1).drop_last() =~= cs@.subrange(start as int, i as int));
        if value > (usize::MAX - d) / 10 {
            proof {
                let m = (i - start + 1) as int;
                assert(cs@.subrange(start as int, i + 1) =~= digits.take(m));
                assert(digits_value(digits.take(m)) == value * 10 + d);
                assert(digits_value(digits.take(m)) > usize::MAX) by (nonlinear_arith)
                    requires
                        digits_value(digits.take(m)) == value * 10 + d,
                        value > (usize::MAX - d) / 10,
                        d <= 9,
                {}
                if all_digits(digits) {
                    lemma_digits_prefix_le(digits, m);
                    assert(digits_value(digits) > usize::MAX);
                }
                assert(spec_parse_usize(s@) is None);
            }
            return None;
        }
        value = value * 10 + d;
        i = i + 1;
    }
    assert(cs@.subrange(start as int, cs@.len() as int) =~= digits);
    Some(value)
}

/// Whether a notification type names Redis (in any case).
pub open spec fn spec_is_redis(t: Option<String>) -> bool {
    match t {
        Some(v) => str_lowercase(v@) == "redis"@,
        None => false,
    }
}

/// Chooses the transport of configuration change notifications.
pub struct NotificationRepositoryFactory;

impl NotificationRepositoryFactory {
    /// The notification transport from the values of `NOTIFICATION_TYPE`,
    /// `NOTIFICATION_CHANNEL_PREFIX`, `REDIS_URL` and `NOTIFICATION_BUFFER_SIZE`: Redis when the
    /// type is `redis` in any case (a Redis URL is then required; the prefix defaults to
    /// `conductor_config`); else an in-memory channel whose size defaults to 1000, also when the
    /// size does not parse.
    pub fn config_by_env(
        notification_type: Option<String>,
        channel_prefix: Option<String>,
        redis_url: Option<String>,
        buffer_size: Option<String>,
    ) -> (r: Result<NotificationConfig, String>)
        ensures
            spec_is_redis(notification_type) ==> match redis_url {
                Some(url) => (r matches Ok(NotificationConfig::Redis { channel_prefix: p, redis_url: u })
                    && u@ == url@ && p@ == (match channel_prefix { Some(c) => c@, None => default_channel_prefix() })),
                None => (r matches Err(m) && m@ == "REDIS_URL environment variable is required for Redis notification"@),
            },
            !spec_is_redis(notification_type) ==> (r matches Ok(NotificationConfig::Channel { buffer_size: n })
                && n == (match buffer_size {
                    Some(b) => match spec_parse_usize(b@) { Some(v) => v, None => 1000 },
                    None => 1000,
                })),
    {
        let is_redis = match &notification_type {
            Some(t) => {
                let lower = to_lowercase(t.as_str());
                lower == String::from_str("redis")
            },
            None => false,
        };
        if is_redis {
            match redis_url {
                Some(url) => Ok(NotificationConfig::Redis {
                    channel_prefix: Self::redis_channel_prefix(channel_prefix),
                    redis_url: url,
                }),
                None => Err(String::from_str("REDIS_URL environment variable is required for Redis notification")),
            }
        } else {
            let n = match buffer_size {
                Some(b) => match parse_usize(b.as_str()) {
                    Some(v) => v,
                    None => 1000,
                },
                None => 1000,
            };
            Ok(NotificationConfig::Channel { buffer_size: n })
        }
    }

    /// The channel prefix of a Redis transport: the given one, else `conductor_config`.
    pub fn redis_channel_prefix(channel_prefix: Option<String>) -> (r: String)
        ensures
            r@ == (match channel_prefix { Some(p) => p@, None => default_channel_prefix() }),
    {
        match channel_prefix {
            Some(p) => p,
            None => String::from_str("conductor_config"),
        }
    }
}

/// The Redis channels of configuration changes under a prefix.
#[derive(Clone, Debug)]
pub struct NotificationChannels {
    pub channel_prefix: String,
}

impl NotificationChannels {
    pub fn new(channel_prefix: String) -> (r: NotificationChannels)
        ensures
            r.channel_prefix@ == channel_prefix@,
    {
        NotificationChannels { channel_prefix }
    }

    /// The channels under the default prefix `conductor_config`.
    pub fn new_with_default_prefix() -> (r: NotificationChannels)
        ensures
            r.channel_prefix@ == default_channel_prefix(),
    {
        NotificationChannels { channel_prefix: String::from_str("conductor_config") }
    }

    /// The channel of one action: `<prefix>:<action>`.
    pub fn get_channel_name(&self, action: &str) -> (r: String)
        ensures
            r@ == self.channel_prefix@ + ":"@ + action@,
    {
        self.channel_prefix.clone().concat(":").concat(action)
    }

    /// The channel of every change: `<prefix>:all`.
    pub fn get_unified_channel_name(&self) -> (r: String)
        ensures
            r@ == self.channel_prefix@ + ":all"@,
    {
        self.channel_prefix.clone().concat(":all")
    }
}

} // verus!
