//! The configuration surface the pipeline consumes. All delays are plain
//! millisecond counts; reading the configuration from disk is the caller's
//! business.

use vstd::prelude::*;

use crate::util::str_eq;

verus! {

/// Logging verbosity, from silent to most verbose.
#[derive(Clone, Copy, Debug, PartialEq, Eq, Structural)]
pub enum LogLevel {
    Off,
    Error,
    Warn,
    Info,
    Debug,
    Trace,
}

/// How the subscription store is reached.
#[derive(Debug)]
pub struct DbConfig {
    pub host: String,
    pub user: String,
    pub dbname: String,
}

/// Names of banned packages: they are kept out of the broadcast channel only;
/// per-subscriber notifications are unaffected.
#[derive(Debug)]
pub struct BanConfig {
    pub crates: Vec<String>,
}

impl BanConfig {
    pub open spec fn is_banned(self, name: Seq<char>) -> bool {
        exists|i: int| 0 <= i < self.crates@.len() && self.crates@[i]@ == name
    }

    /// Whether the given package name is banned.
    pub fn contains(&self, name: &str) -> (r: bool)
        ensures
            r == self.is_banned(name@),
    {
        let mut i: usize = 0;
        let n = self.crates.len();
        while i < n
            invariant
                i <= n,
                n == self.crates@.len(),
                forall|j: int| 0 <= j < i ==> self.crates@[j]@ != name@,
            decreases n - i,
        {
            if str_eq(self.crates[i].as_str(), name) {
                return true;
            }
            i += 1;
        }
        false
    }
}

impl Default for BanConfig {
    /// By default no package is banned.
    fn default() -> (r: Self)
        ensures
            r.crates@.len() == 0,
    {
        BanConfig { crates: Vec::new() }
    }
}

/// Delay between two subscriber notifications, in milliseconds.
#[derive(Clone, Copy, Debug, PartialEq, Eq, Structural)]
pub struct BroadcastDelay {
    pub millis: u64,
}

impl Default for BroadcastDelay {
    /// A quarter of a second.
    fn default() -> (r: Self)
        ensures
            r.millis == 250,
    {
        BroadcastDelay { millis: 250 }
    }
}

/// Delay between notifying about two updates, in milliseconds.
#[derive(Clone, Copy, Debug, PartialEq, Eq, Structural)]
pub struct UpdateDelay {
    pub millis: u64,
}

impl Default for UpdateDelay {
    fn default() -> (r: Self)
        ensures
            r.millis == 1300,
    {
        UpdateDelay { millis: 1300 }
    }
}

/// Delay before a failed outbound send is retried, in milliseconds.
#[derive(Clone, Copy, Debug, PartialEq, Eq, Structural)]
pub struct RetryDelay {
    pub millis: u64,
}

impl Default for RetryDelay {
    /// Ten seconds.
    fn default() -> (r: Self)
        ensures
            r.millis == 10_000,
    {
        RetryDelay { millis: 10_000 }
    }
}

/// Everything the pipeline is configured with.
#[derive(Debug)]
pub struct Config {
    /// Channel that receives every non-banned update, silently.
    pub channel: Option<i64>,
    /// Channel that receives operator-facing error reports.
    pub error_report_channel_id: Option<i64>,
    /// Delay between index fetches, in milliseconds.
    pub pull_delay: u64,
    /// Logging level.
    pub loglevel: LogLevel,
    /// Url of the package index (a git repository).
    pub index_url: String,
    /// The path to the local checkout of the index.
    pub index_path: String,
    /// Delay after which a failed outbound send is retried.
    pub retry_delay: RetryDelay,
    /// Delay between two subscriber sends for one event.
    pub broadcast_delay_millis: BroadcastDelay,
    /// Delay between notifying about two updates.
    pub update_delay_millis: UpdateDelay,
    /// Token of the messaging bot.
    pub bot_token: String,
    /// Subscription store configuration.
    pub db: DbConfig,
    /// Ban configuration.
    pub ban: BanConfig,
}

/// Default delay between index fetches: five minutes, in milliseconds.
pub fn pull_delay() -> (r: u64)
    ensures
        r == 300_000,
{
    300_000
}

/// Default logging level.
pub fn loglevel() -> (r: LogLevel)
    ensures
        r == LogLevel::Info,
{
    LogLevel::Info
}

/// Default url of the package index.
pub fn index_url() -> (r: String)
    ensures
        r@ == "https://github.com/rust-lang/crates.io-index.git"@,
{
    String::from_str("https://github.com/rust-lang/crates.io-index.git")
}

/// Default path of the local index checkout.
pub fn index_path() -> (r: String)
    ensures
        r@ == "./index"@,
{
    String::from_str("./index")
}

} // verus!
