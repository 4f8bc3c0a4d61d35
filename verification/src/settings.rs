//! The settings that the service starts from, and what is read out of them:
//! the interval between passes, the provider with its options, the
//! credentials, and the place of the settings file.

use vstd::prelude::*;
use humantime::DurationError;
use crate::dns::cloudflare::{CloudflareProvider, CloudflareProviderView};
use crate::dns::route53::{Route53Provider, Route53ProviderView};
use crate::seqs::{first_index, lemma_first_index};

verus! {

/// The name of the settings file.
pub const CONFIG_FILE: &'static str = "config.toml";

/// The directory searched second for the settings file.
pub const WORKING_DIR: &'static str = ".";

/// The directory searched last for the settings file.
pub const SYSTEM_DIR: &'static str = "/etc/traefik-dns-rs";

/// The settings of a Route 53 provider.
#[derive(Debug, Default)]
pub struct Route53Settings {
    pub zone_id: String,
    pub destination: String,
    pub ttl: Option<i64>,
}

/// The settings of a Cloudflare provider.
#[derive(Debug, Default)]
pub struct CloudflareSettings {
    pub zone_id: String,
    pub destination: String,
    pub token: Option<String>,
    pub email: Option<String>,
    pub api_key: Option<String>,
    pub ttl: Option<u32>,
    pub proxied: Option<bool>,
}

/// The provider that the service works with.
#[derive(Debug)]
pub enum Provider {
    Route53(Route53Settings),
    Cloudflare(CloudflareSettings),
}

/// The settings of the service.
#[derive(Debug, Default)]
pub struct Settings {
    /// The base URL of the proxy's API.
    pub traefik_url: String,
    /// The interval between passes, as a text such as `30s` or `5min`.
    pub update_interval: String,
    pub provider: Option<Provider>,
}

/// How the service identifies itself to Cloudflare.
#[derive(Debug, Clone, PartialEq, Eq)]
pub enum Credentials {
    UserAuthToken { token: String },
    UserAuthKey { email: String, key: String },
}

/// Credentials as text.
pub enum CredentialsView {
    UserAuthToken { token: Seq<char> },
    UserAuthKey { email: Seq<char>, key: Seq<char> },
}

impl View for Credentials {
    type V = CredentialsView;

    open spec fn view(&self) -> CredentialsView {
        match *self {
            Credentials::UserAuthToken { token } => CredentialsView::UserAuthToken {
                token: token@,
            },
            Credentials::UserAuthKey { email, key } => CredentialsView::UserAuthKey {
                email: email@,
                key: key@,
            },
        }
    }
}

/// An error in the settings.
#[derive(Debug)]
pub enum ConfigError {
    /// None of the searched directories holds a settings file.
    NoConfigFound,
    /// The update interval is not a duration.
    BadInterval(DurationError),
    /// The update interval does not fit in 64 bits of nanoseconds.
    IntervalTooLong,
    /// The update interval is written with more than `MAX_INTERVAL_DIGITS`
    /// digits.
    IntervalTooManyDigits,
}

/// `humantime::DurationError`: why a text is no duration. It is carried in
/// `ConfigError::BadInterval`; nothing is known of what it holds.
#[verifier::external_type_specification]
#[verifier::external_body]
pub struct ExDurationError(DurationError);

/// The most digits that the text of an update interval may hold. Every
/// number of the text stands before a unit, and the longest unit is the year
/// of 31 557 600 seconds: with eleven digits in all, a text spells less than
/// 31 557 600 times 10^11 seconds, far less than the 2^64 seconds at which
/// a duration ends.
pub const MAX_INTERVAL_DIGITS: usize = 11;

/// Whether `c` is one of the digits `0` to `9`.
pub open spec fn is_digit(c: char) -> bool {
    '0' <= c <= '9'
}

/// The number of digits in `text`.
pub open spec fn digit_count(text: Seq<char>) -> nat
    decreases text.len(),
{
    if text.len() == 0 {
        0
    } else {
        digit_count(text.drop_last()) + if is_digit(text.last()) {
            1nat
        } else {
            0nat
        }
    }
}

/// What `humantime::parse_duration` returns for `text`, the duration
/// counted in nanoseconds.
pub uninterp spec fn humantime_parsed(text: Seq<char>) -> Result<u128, DurationError>;

/// `humantime::parse_duration`, with the duration it returns counted in
/// nanoseconds by `Duration::as_nanos`. The parser reads a sequence of spans,
/// each a number and a unit (`30s`, `1hour 12min`), and fails with an error
/// on any other text. It adds the spans up in a `Duration` and panics where
/// the sum reaches 2^64 seconds by a carry of nanoseconds; a text of at most
/// `MAX_INTERVAL_DIGITS` digits stays far below that, so only such texts are
/// admitted. The contract names the result and claims no more of it.
#[verifier::external_body]
fn parse_duration_nanos(text: &str) -> (parsed: Result<u128, DurationError>)
    requires
        digit_count(text@) <= MAX_INTERVAL_DIGITS,
    ensures
        parsed == humantime_parsed(text@),
{
    humantime::parse_duration(text).map(|span| span.as_nanos())
}

/// The number of digits in `text`.
pub fn count_digits(text: &str) -> (count: usize)
    ensures
        count == digit_count(text@),
{
    let len = text.unicode_len();
    let mut count: usize = 0;
    let mut i: usize = 0;
    assert(text@.take(0) =~= Seq::<char>::empty());
    while i < len
        invariant
            i <= len,
            len == text@.len(),
            count <= i,
            count == digit_count(text@.take(i as int)),
        decreases len - i,
    {
        let c = text.get_char(i);
        assert(text@.take(i as int + 1).drop_last() =~= text@.take(i as int));
        if '0' <= c && c <= '9' {
            count += 1;
        }
        i += 1;
    }
    assert(text@.take(i as int) =~= text@);
    count
}

/// The update interval that a parser's result stands for: the nanoseconds
/// that it read, if they fit in a `u64`.
pub open spec fn interval_from(parsed: Result<u128, DurationError>) -> Result<u64, ConfigError> {
    match parsed {
        Ok(nanos) => if nanos <= u64::MAX {
            Ok(nanos as u64)
        } else {
            Err(ConfigError::IntervalTooLong)
        },
        Err(e) => Err(ConfigError::BadInterval(e)),
    }
}

/// The update interval that a parser's result stands for: the nanoseconds
/// that it read, if they fit in a `u64`.
pub fn interval_of(parsed: Result<u128, DurationError>) -> (interval: Result<u64, ConfigError>)
    ensures
        interval == interval_from(parsed),
{
    match parsed {
        Ok(nanos) => {
            if nanos <= u64::MAX as u128 {
                Ok(nanos as u64)
            } else {
                Err(ConfigError::IntervalTooLong)
            }
        },
        Err(e) => Err(ConfigError::BadInterval(e)),
    }
}

/// The update interval that `text` stands for: what `humantime` reads from
/// it, in nanoseconds, where the text holds at most `MAX_INTERVAL_DIGITS`
/// digits and the nanoseconds fit in a `u64`.
pub open spec fn interval_in(text: Seq<char>) -> Result<u64, ConfigError> {
    if digit_count(text) > MAX_INTERVAL_DIGITS {
        Err(ConfigError::IntervalTooManyDigits)
    } else {
        interval_from(humantime_parsed(text))
    }
}

/// The directories searched for the settings file, in the order of the
/// search: the user's configuration directory, the working directory and,
/// on Linux, the system's directory.
pub open spec fn searched(config_dir: Seq<char>, linux: bool) -> Seq<Seq<char>> {
    if linux {
        seq![config_dir, WORKING_DIR@, SYSTEM_DIR@]
    } else {
        seq![config_dir, WORKING_DIR@]
    }
}

/// The directories searched for the settings file, in the order of the
/// search: the user's configuration directory, the working directory and,
/// on Linux, the system's directory.
pub fn search_dirs(config_dir: String, linux: bool) -> (dirs: Vec<String>)
    ensures
        dirs.deep_view() == searched(config_dir@, linux),
{
    let mut dirs: Vec<String> = Vec::new();
    dirs.push(config_dir);
    dirs.push(WORKING_DIR.to_owned());
    if linux {
        dirs.push(SYSTEM_DIR.to_owned());
    }
    assert(dirs.deep_view() =~= searched(config_dir@, linux));
    dirs
}

impl Settings {
    /// The first of the searched places that holds a settings file, where
    /// `found[i]` says whether place `i` holds one; the search fails where
    /// none does.
    pub fn find_config(found: &Vec<bool>) -> (place: Result<usize, ConfigError>)
        ensures
            match place {
                Ok(i) => i < found.len() && i == first_index(found@, |f: bool| f),
                Err(e) => e is NoConfigFound && !found@.contains(true),
            },
    {
        let mut i: usize = 0;
        proof {
            lemma_first_index(found@, |f: bool| f);
        }
        while i < found.len()
            invariant
                i <= found.len(),
                forall|k: int| 0 <= k < i ==> !found[k],
            decreases found.len() - i,
        {
            if found[i] {
                proof {
                    lemma_first_index(found@, |f: bool| f);
                    let first = first_index(found@, |f: bool| f);
                    if first < i {
                        assert(found@[first]);
                    }
                }
                return Ok(i);
            }
            i += 1;
        }
        Err(ConfigError::NoConfigFound)
    }

    /// The interval between passes, in nanoseconds, as `humantime` reads it
    /// from `update_interval`. A text of more than `MAX_INTERVAL_DIGITS`
    /// digits is refused unread.
    pub fn interval_nanos(&self) -> (interval: Result<u64, ConfigError>)
        ensures
            interval == interval_in(self.update_interval@),
    {
        let text = self.update_interval.as_str();
        if count_digits(text) > MAX_INTERVAL_DIGITS {
            Err(ConfigError::IntervalTooManyDigits)
        } else {
            interval_of(parse_duration_nanos(text))
        }
    }
}

impl CloudflareSettings {
    /// The credentials that the settings give: the token where there is
    /// one, else the e-mail address with the API key where both are there,
    /// else none.
    pub fn credentials(&self) -> (credentials: Option<Credentials>)
        ensures
            match (self.token, self.email, self.api_key) {
                (Some(token), _, _) => credentials matches Some(c) && c@
                    == (CredentialsView::UserAuthToken { token: token@ }),
                (None, Some(email), Some(key)) => credentials matches Some(c) && c@
                    == (CredentialsView::UserAuthKey { email: email@, key: key@ }),
                _ => credentials is None,
            },
    {
        match &self.token {
            Some(token) => Some(Credentials::UserAuthToken { token: token.clone() }),
            None => match (&self.email, &self.api_key) {
                (Some(email), Some(key)) => Some(
                    Credentials::UserAuthKey { email: email.clone(), key: key.clone() },
                ),
                _ => None,
            },
        }
    }

    /// The provider that the settings describe: the zone and the
    /// destination, with the time to live and the proxying where they are
    /// set, and the defaults where they are not.
    pub fn provider(&self) -> (provider: CloudflareProvider)
        ensures
            provider@ == (CloudflareProviderView {
                dest: self.destination@,
                zone_id: self.zone_id@,
                ttl: match self.ttl {
                    Some(ttl) => ttl,
                    None => crate::dns::cloudflare::DEFAULT_TTL,
                },
                proxied: match self.proxied {
                    Some(proxied) => proxied,
                    None => crate::dns::cloudflare::DEFAULT_PROXIED,
                },
            }),
    {
        let mut provider = CloudflareProvider::new(self.zone_id.clone(), self.destination.clone());
        if let Some(ttl) = self.ttl {
            *provider.ttl_mut() = ttl;
        }
        if let Some(proxied) = self.proxied {
            *provider.proxied_mut() = proxied;
        }
        provider
    }
}

impl Route53Settings {
    /// The provider that the settings describe: the zone and the
    /// destination, with the time to live where it is set, and the default
    /// where it is not.
    pub fn provider(&self) -> (provider: Route53Provider)
        ensures
            provider@ == (Route53ProviderView {
                dest: self.destination@,
                hosted_zone_id: self.zone_id@,
                ttl: match self.ttl {
                    Some(ttl) => ttl,
                    None => crate::dns::route53::DEFAULT_TTL,
                },
            }),
    {
        let mut provider = Route53Provider::new(self.zone_id.clone(), self.destination.clone());
        if let Some(ttl) = self.ttl {
            *provider.ttl_mut() = ttl;
        }
        provider
    }
}

} // verus!
