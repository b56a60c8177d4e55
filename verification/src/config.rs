//! Settings of the hub, read from the textual values of its environment.
//!
//! The caller looks the variables up and hands over what it found; a
//! variable that is not set is `None`.

use vstd::prelude::*;
use vstd::string::*;
use vstd::std_specs::iter::IteratorSpec;
use crate::text::{eq_ignoring_ascii_case, same_ignoring_ascii_case, str_eq};

verus! {

/// The digit that `c` writes, if it writes one.
pub open spec fn digit_of(c: char) -> Option<nat> {
    if '0' <= c && c <= '9' {
        Some((c as u32 - 48) as nat)
    } else {
        None
    }
}

/// What a digit standing behind a number makes of it.
pub open spec fn with_digit(value: Option<nat>, c: char) -> Option<nat> {
    match (value, digit_of(c)) {
        (Some(v), Some(d)) => Some(10 * v + d),
        _ => None,
    }
}

/// The number that the digits `s` write in base ten, if they are all
/// digits; without digits it is zero.
pub open spec fn digits_value(s: Seq<char>) -> Option<nat>
    decreases s.len(),
{
    if s.len() == 0 {
        Some(0nat)
    } else {
        with_digit(digits_value(s.drop_last()), s.last())
    }
}

/// `s` without the plus sign that may lead it.
pub open spec fn unsigned_part(s: Seq<char>) -> Seq<char> {
    if s.len() > 0 && s[0] == '+' {
        s.skip(1)
    } else {
        s
    }
}

/// The number that `s` reads as: `s` is one or more digits, with or
/// without a plus sign before them, and writes a number of at most 64
/// bits. Any other text, the empty one and one with white space included,
/// reads as no number.
pub open spec fn parsed_number(s: Seq<char>) -> Option<u64> {
    let digits = unsigned_part(s);
    if digits.len() == 0 {
        None
    } else {
        match digits_value(digits) {
            Some(v) => if v <= u64::MAX {
                Some(v as u64)
            } else {
                None
            },
            None => None,
        }
    }
}

/// Whether the running figures stand for `value`: the number read so far
/// is `v`, held in `acc` unless it has outgrown 64 bits, and `bad` says
/// that a character was no digit.
spec fn tracks(acc: u64, over: bool, bad: bool, v: nat, value: Option<nat>) -> bool {
    &&& value == if bad {
        None
    } else {
        Some(v)
    }
    &&& !bad && !over ==> acc == v
    &&& !bad && over ==> v > u64::MAX
}

/// Takes one more character into the running figures.
fn absorb(c: char, acc: u64, over: bool, bad: bool, Ghost(v): Ghost<nat>, Ghost(value): Ghost<
    Option<nat>,
>) -> (r: (u64, bool, bool, Ghost<nat>))
    requires
        tracks(acc, over, bad, v, value),
    ensures
        tracks(r.0, r.1, r.2, r.3@, with_digit(value, c)),
{
    if bad || !('0' <= c && c <= '9') {
        return (acc, over, true, Ghost(v));
    }
    let d: u64 = (c as u32 - 48) as u64;
    if over || acc > (u64::MAX - d) / 10 {
        (acc, true, false, Ghost(10 * v + d as nat))
    } else {
        (acc * 10 + d, false, false, Ghost(10 * v + d as nat))
    }
}

/// Reads a number from `s`; see [`parsed_number`].
pub fn parse_number(s: &str) -> (r: Option<u64>)
    ensures
        r == parsed_number(s@),
{
    broadcast use vstd::string::group_string_axioms;

    let n = s.unicode_len();
    if n == 0 {
        return None;
    }
    let mut it = s.chars();
    assert(it.remaining()[0] == s@[0]);
    let first = it.next();
    assert(it.remaining() =~= s@.skip(1));
    let ghost digits = unsigned_part(s@);
    let signed = match first {
        Some(c) => c == '+',
        None => false,
    };
    let ghost start: int = if signed {
        1
    } else {
        0
    };
    let mut acc: u64 = 0;
    let mut over = false;
    let mut bad = false;
    let mut v: Ghost<nat> = Ghost(0);
    assert(digits.take(0) =~= Seq::<char>::empty());
    if !signed {
        match first {
            Some(c) => {
                let next = absorb(c, acc, over, bad, v, Ghost(digits_value(digits.take(0))));
                acc = next.0;
                over = next.1;
                bad = next.2;
                v = next.3;
                assert(digits.take(1).drop_last() =~= digits.take(0));
            },
            None => {
                assert(false);
            },
        }
    }
    let mut k: usize = 1;
    while k < n
        invariant
            n == s@.len(),
            1 <= k <= n,
            start == 0 || start == 1,
            digits == s@.skip(start),
            it.remaining() == s@.skip(k as int),
            tracks(acc, over, bad, v@, digits_value(digits.take(k - start))),
        decreases n - k,
    {
        assert(it.remaining()[0] == s@[k as int]);
        let next = it.next();
        assert(it.remaining() =~= s@.skip(k + 1));
        match next {
            Some(c) => {
                let taken = absorb(
                    c,
                    acc,
                    over,
                    bad,
                    v,
                    Ghost(digits_value(digits.take(k - start))),
                );
                acc = taken.0;
                over = taken.1;
                bad = taken.2;
                v = taken.3;
                assert(digits.take(k + 1 - start).drop_last() =~= digits.take(k - start));
                assert(digits.take(k + 1 - start).last() == c);
            },
            None => {
                assert(false);
            },
        }
        k += 1;
    }
    assert(digits.take(n - start) =~= digits);
    if (signed && n == 1) || bad || over {
        None
    } else {
        Some(acc)
    }
}

/// The meaning of a numeric setting: the number that was read if there is
/// one and it is at most `max`, else `default`.
pub open spec fn number_or(read: Option<u64>, max: u64, default: u64) -> u64 {
    match read {
        Some(n) => if n <= max {
            n
        } else {
            default
        },
        None => default,
    }
}

/// Applies [`number_or`] to a number that was read.
pub fn choose_number(read: Option<u64>, max: u64, default: u64) -> (r: u64)
    ensures
        r == number_or(read, max, default),
{
    match read {
        Some(n) => if n <= max {
            n
        } else {
            default
        },
        None => default,
    }
}

/// What was read from a variable's text, if the variable is set.
pub open spec fn number_in(value: Option<String>) -> Option<u64> {
    match value {
        Some(s) => parsed_number(s@),
        None => None,
    }
}

fn read_number(value: &Option<String>) -> (r: Option<u64>)
    ensures
        r == number_in(*value),
{
    match value {
        Some(s) => parse_number(s.as_str()),
        None => None,
    }
}

/// Whether a variable's text reads "true", in any mix of ASCII capitals and
/// small letters.
pub open spec fn says_true(value: Option<String>) -> bool {
    match value {
        Some(s) => same_ignoring_ascii_case(s@, "true"@),
        None => false,
    }
}

fn reads_true(value: &Option<String>) -> (r: bool)
    ensures
        r == says_true(*value),
{
    match value {
        Some(s) => eq_ignoring_ascii_case(s.as_str(), "true"),
        None => false,
    }
}

/// Whether a variable's text switches a feature on: "true" in any mix of
/// ASCII capitals and small letters, or "1".
pub open spec fn switched_on(value: Option<String>) -> bool {
    says_true(value) || (value is Some && value->0@ == "1"@)
}

fn reads_on(value: &Option<String>) -> (r: bool)
    ensures
        r == switched_on(*value),
{
    match value {
        Some(s) => eq_ignoring_ascii_case(s.as_str(), "true") || str_eq(s.as_str(), "1"),
        None => false,
    }
}

/// Chat admission: whether it is enforced, and how many messages a client
/// may send per window.
#[derive(Debug, Clone, Copy, PartialEq, Eq)]
pub struct RateLimitConfig {
    pub enabled: bool,
    pub messages_per_minute: u32,
}

/// Messages per minute when the environment names no number.
pub const DEFAULT_MESSAGES_PER_MINUTE: u32 = 60;

impl RateLimitConfig {
    /// The settings for the switch that was read and the number that was
    /// read, with the default where no usable number was read.
    pub fn from_settings(enabled: bool, per_minute: Option<u64>) -> (r: RateLimitConfig)
        ensures
            r.enabled == enabled,
            r.messages_per_minute == number_or(
                per_minute,
                u32::MAX as u64,
                DEFAULT_MESSAGES_PER_MINUTE as u64,
            ),
    {
        let n = choose_number(per_minute, u32::MAX as u64, DEFAULT_MESSAGES_PER_MINUTE as u64);
        RateLimitConfig { enabled, messages_per_minute: n as u32 }
    }

    /// Reads the settings from the values of `RATE_LIMIT_ENABLED` and
    /// `RATE_LIMIT_MSG_PER_MIN`.
    pub fn from_env(enabled: Option<String>, per_minute: Option<String>) -> (r: RateLimitConfig)
        ensures
            r.enabled == switched_on(enabled),
            r.messages_per_minute == number_or(
                number_in(per_minute),
                u32::MAX as u64,
                DEFAULT_MESSAGES_PER_MINUTE as u64,
            ),
    {
        RateLimitConfig::from_settings(reads_on(&enabled), read_number(&per_minute))
    }
}

/// The completion gateway's settings.
#[derive(Debug, Clone, PartialEq, Eq)]
pub struct AiConfig {
    pub enabled: bool,
    pub api_key: String,
    pub model: String,
    /// Requests per window and user.
    pub rate_limit: u32,
    /// Seconds after which a request is given up.
    pub timeout_secs: u64,
    /// Upper bound on the length of an answer, in tokens.
    pub max_tokens: u32,
}

/// The view of an [`AiConfig`].
pub struct AiConfigView {
    pub enabled: bool,
    pub api_key: Seq<char>,
    pub model: Seq<char>,
    pub rate_limit: u32,
    pub timeout_secs: u64,
    pub max_tokens: u32,
}

impl View for AiConfig {
    type V = AiConfigView;

    open spec fn view(&self) -> AiConfigView {
        AiConfigView {
            enabled: self.enabled,
            api_key: self.api_key@,
            model: self.model@,
            rate_limit: self.rate_limit,
            timeout_secs: self.timeout_secs,
            max_tokens: self.max_tokens,
        }
    }
}

/// Requests per window and user when the environment names no number.
pub const DEFAULT_AI_RATE_LIMIT: u32 = 5;

/// Seconds before a request is given up when the environment names none.
pub const DEFAULT_TIMEOUT_SECS: u64 = 30;

/// Answer length in tokens when the environment names none.
pub const DEFAULT_MAX_TOKENS: u32 = 1024;

/// The model asked when the environment names none.
pub open spec fn default_model() -> Seq<char> {
    "openai/gpt-4o"@
}

/// A variable's text, or `default` where the variable is not set.
pub open spec fn text_or(value: Option<String>, default: Seq<char>) -> Seq<char> {
    match value {
        Some(s) => s@,
        None => default,
    }
}

impl AiConfig {
    /// The settings for the values that were read, with the defaults
    /// where a variable was not set or held no usable number.
    pub fn from_settings(
        enabled: bool,
        api_key: Option<String>,
        model: Option<String>,
        rate_limit: Option<u64>,
        timeout_secs: Option<u64>,
        max_tokens: Option<u64>,
    ) -> (r: AiConfig)
        ensures
            r@ == (AiConfigView {
                enabled,
                api_key: text_or(api_key, Seq::empty()),
                model: text_or(model, default_model()),
                rate_limit: number_or(rate_limit, u32::MAX as u64, DEFAULT_AI_RATE_LIMIT as u64) as u32,
                timeout_secs: number_or(timeout_secs, u64::MAX, DEFAULT_TIMEOUT_SECS),
                max_tokens: number_or(max_tokens, u32::MAX as u64, DEFAULT_MAX_TOKENS as u64) as u32,
            }),
    {
        let api_key = match api_key {
            Some(k) => k,
            None => String::new(),
        };
        let model = match model {
            Some(m) => m,
            None => String::from_str("openai/gpt-4o"),
        };
        let rate_limit = choose_number(rate_limit, u32::MAX as u64, DEFAULT_AI_RATE_LIMIT as u64);
        let timeout_secs = choose_number(timeout_secs, u64::MAX, DEFAULT_TIMEOUT_SECS);
        let max_tokens = choose_number(max_tokens, u32::MAX as u64, DEFAULT_MAX_TOKENS as u64);
        AiConfig {
            enabled,
            api_key,
            model,
            rate_limit: rate_limit as u32,
            timeout_secs,
            max_tokens: max_tokens as u32,
        }
    }

    /// Reads the settings from the values of `AI_ENABLED`,
    /// `OPENROUTER_API_KEY`, `AI_MODEL`, `AI_RATE_LIMIT`, `AI_TIMEOUT_SECS`
    /// and `AI_MAX_TOKENS`.
    pub fn from_env(
        enabled: Option<String>,
        api_key: Option<String>,
        model: Option<String>,
        rate_limit: Option<String>,
        timeout_secs: Option<String>,
        max_tokens: Option<String>,
    ) -> (r: AiConfig)
        ensures
            r@ == (AiConfigView {
                enabled: says_true(enabled),
                api_key: text_or(api_key, Seq::empty()),
                model: text_or(model, default_model()),
                rate_limit: number_or(
                    number_in(rate_limit),
                    u32::MAX as u64,
                    DEFAULT_AI_RATE_LIMIT as u64,
                ) as u32,
                timeout_secs: number_or(number_in(timeout_secs), u64::MAX, DEFAULT_TIMEOUT_SECS),
                max_tokens: number_or(
                    number_in(max_tokens),
                    u32::MAX as u64,
                    DEFAULT_MAX_TOKENS as u64,
                ) as u32,
            }),
    {
        let on = reads_true(&enabled);
        let rate_limit = read_number(&rate_limit);
        let timeout_secs = read_number(&timeout_secs);
        let max_tokens = read_number(&max_tokens);
        AiConfig::from_settings(on, api_key, model, rate_limit, timeout_secs, max_tokens)
    }
}

/// Settings of the listener.
#[derive(Debug, Clone, Copy, PartialEq, Eq)]
pub struct ServerConfig {
    /// The port to listen on.
    pub port: u16,
    /// Whether forwarding headers are believed from every peer.
    pub trust_proxy_headers: bool,
}

/// The port listened on when the environment names none.
pub const DEFAULT_PORT: u16 = 3001;

impl ServerConfig {
    /// The settings for the port that was read and the switch that was
    /// read, with the default port where no usable number was read.
    pub fn from_settings(port: Option<u64>, trust_proxy_headers: bool) -> (r: ServerConfig)
        ensures
            r.port == number_or(port, u16::MAX as u64, DEFAULT_PORT as u64),
            r.trust_proxy_headers == trust_proxy_headers,
    {
        let port = choose_number(port, u16::MAX as u64, DEFAULT_PORT as u64);
        ServerConfig { port: port as u16, trust_proxy_headers }
    }

    /// Reads the settings from the values of `WS_PORT` and
    /// `TRUST_PROXY_HEADERS`.
    pub fn from_env(port: Option<String>, trust_proxy_headers: Option<String>) -> (r: ServerConfig)
        ensures
            r.port == number_or(number_in(port), u16::MAX as u64, DEFAULT_PORT as u64),
            r.trust_proxy_headers == switched_on(trust_proxy_headers),
    {
        ServerConfig::from_settings(read_number(&port), reads_on(&trust_proxy_headers))
    }
}

} // verus!
