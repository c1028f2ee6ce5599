//! The cache store: where checkouts live, how long they stay fresh, and the
//! configuration that says so.
//!
//! Nothing here touches the disk. The caller reports what it found at a path
//! and the time it read from its clock, and carries out what is decided.

use vstd::prelude::*;
use crate::error::Error;

verus! {

/// The name of the cache root directory under the user's home directory.
pub const CACHE_DIR: &'static str = ".resorepo";

/// The name of the configuration file inside the cache root.
pub const CONFIG_FILE_NAME: &'static str = "resorepo_config.yaml";

/// The time-to-live of a configuration that was never edited, in days.
pub const DEFAULT_CACHE_TTL_DAYS: u32 = 7;

/// The length of a day in seconds.
pub const SECONDS_PER_DAY: u64 = 86_400;

/// The cache configuration: for how many days a checkout is reused before
/// it is cloned afresh. Zero means that every invocation clones.
#[derive(Clone, Copy, Debug, PartialEq, Eq, Structural)]
pub struct Config {
    pub cache_ttl_days: u32,
}

impl Default for Config {
    fn default() -> (config: Config)
        ensures
            config == default_config(),
    {
        Config { cache_ttl_days: DEFAULT_CACHE_TTL_DAYS }
    }
}

/// The configuration that is written where none exists yet.
pub open spec fn default_config() -> Config {
    Config { cache_ttl_days: DEFAULT_CACHE_TTL_DAYS }
}

/// What was found at the path of the configuration file.
#[derive(Clone, Copy, Debug, PartialEq, Eq, Structural)]
pub enum ConfigFile {
    /// There is no file.
    Absent,
    /// There is a file, and it does not have the shape of a configuration.
    Malformed,
    /// There is a file of the right shape, with this time-to-live in it.
    Holds { cache_ttl_days: i64 },
}

/// The configuration of an invocation, and whether it has yet to be written
/// to the configuration file.
#[derive(Clone, Copy, Debug, PartialEq, Eq, Structural)]
pub struct ConfigLoad {
    pub config: Config,
    pub write_default: bool,
}

/// The configuration that a file with the time-to-live `cache_ttl_days`
/// holds. A negative number of days, or one beyond `u32`, is no
/// configuration.
pub open spec fn config_of(cache_ttl_days: i64) -> Result<Config, Error> {
    if 0 <= cache_ttl_days <= u32::MAX {
        Ok(Config { cache_ttl_days: cache_ttl_days as u32 })
    } else {
        Err(Error::ConfigCorrupt)
    }
}

/// The configuration to run with, given what was found at the path of the
/// configuration file. Without a file the default is used and is to be
/// written. A file that exists is the source of truth: where it holds no
/// configuration the load fails, and the default does not stand in for it.
pub open spec fn load_config(found: ConfigFile) -> Result<ConfigLoad, Error> {
    match found {
        ConfigFile::Absent => Ok(ConfigLoad { config: default_config(), write_default: true }),
        ConfigFile::Malformed => Err(Error::ConfigCorrupt),
        ConfigFile::Holds { cache_ttl_days } => match config_of(cache_ttl_days) {
            Ok(config) => Ok(ConfigLoad { config, write_default: false }),
            Err(e) => Err(e),
        },
    }
}

/// Reads the configuration out of the time-to-live that a configuration
/// file holds.
pub fn read_config(cache_ttl_days: i64) -> (r: Result<Config, Error>)
    ensures
        r == config_of(cache_ttl_days),
{
    if 0 <= cache_ttl_days && cache_ttl_days <= 0xffff_ffff {
        Ok(Config { cache_ttl_days: cache_ttl_days as u32 })
    } else {
        Err(Error::ConfigCorrupt)
    }
}

/// Decides the configuration of an invocation from what was found at the
/// path of the configuration file, and whether the default has to be
/// written there.
pub fn get_config(found: ConfigFile) -> (r: Result<ConfigLoad, Error>)
    ensures
        r == load_config(found),
{
    match found {
        ConfigFile::Absent => Ok(ConfigLoad { config: Config::default(), write_default: true }),
        ConfigFile::Malformed => Err(Error::ConfigCorrupt),
        ConfigFile::Holds { cache_ttl_days } => match read_config(cache_ttl_days) {
            Ok(config) => Ok(ConfigLoad { config, write_default: false }),
            Err(e) => Err(e),
        },
    }
}

/// Loading where no file exists yields the default and asks for it to be
/// written; loading a file that holds what the default holds yields the
/// default again, with nothing to write.
pub proof fn lemma_default_config_round_trips()
    ensures
        load_config(ConfigFile::Absent) == Ok::<ConfigLoad, Error>(
            ConfigLoad { config: default_config(), write_default: true },
        ),
        load_config(ConfigFile::Holds { cache_ttl_days: default_config().cache_ttl_days as i64 })
            == Ok::<ConfigLoad, Error>(ConfigLoad { config: default_config(), write_default: false }),
{
}

/// Every configuration loads back from the file that holds its
/// time-to-live.
pub proof fn lemma_config_round_trips(config: Config)
    ensures
        config_of(config.cache_ttl_days as i64) == Ok::<Config, Error>(config),
{
}

/// What stands at the path of a checkout, as the caller found it.
#[derive(Clone, Copy, Debug, PartialEq, Eq, Structural)]
pub enum CheckoutEntry {
    /// Nothing is there.
    Missing,
    /// Something is there that is no checkout, such as what an interrupted
    /// clone left behind.
    Leftover,
    /// A checkout is there, last modified at this time in seconds since the
    /// epoch, where the time is on record.
    Checkout { modified: Option<u64> },
}

/// Whether the entry has to be cloned afresh at the time `now`, in seconds
/// since the epoch.
///
/// With a time-to-live of zero every entry is stale. Otherwise an entry is
/// stale where it is missing, is no checkout, has no modification time on
/// record, or is older than `ttl_days` days. An entry modified in the future
/// has no age to speak of and is fresh.
pub open spec fn stale(entry: CheckoutEntry, ttl_days: u32, now: u64) -> bool {
    ttl_days == 0 || match entry {
        CheckoutEntry::Missing => true,
        CheckoutEntry::Leftover => true,
        CheckoutEntry::Checkout { modified: None } => true,
        CheckoutEntry::Checkout { modified: Some(modified) } => now - modified > ttl_days
            * SECONDS_PER_DAY,
    }
}

/// Decides whether the entry has to be cloned afresh at the time `now`.
pub fn is_stale(entry: &CheckoutEntry, ttl_days: u32, now: u64) -> (r: bool)
    ensures
        r == stale(*entry, ttl_days, now),
        ttl_days == 0 ==> r,
        *entry is Missing ==> r,
{
    if ttl_days == 0 {
        return true;
    }
    match entry {
        CheckoutEntry::Missing => true,
        CheckoutEntry::Leftover => true,
        CheckoutEntry::Checkout { modified: None } => true,
        CheckoutEntry::Checkout { modified: Some(modified) } => {
            let limit: u64 = (ttl_days as u64) * SECONDS_PER_DAY;
            now > *modified && now - *modified > limit
        },
    }
}

/// With a time-to-live of zero every entry is stale, whatever its age.
pub proof fn lemma_zero_ttl_is_always_stale(entry: CheckoutEntry, now: u64)
    ensures
        stale(entry, 0, now),
{
}

/// With a time-to-live above zero, a checkout is fresh at the moment it was
/// cloned and for `ttl_days` days from then, and stale at every later time.
pub proof fn lemma_stale_once_older_than_ttl(ttl_days: u32, cloned_at: u64, now: u64)
    requires
        ttl_days > 0,
    ensures
        !stale(CheckoutEntry::Checkout { modified: Some(cloned_at) }, ttl_days, cloned_at),
        stale(CheckoutEntry::Checkout { modified: Some(cloned_at) }, ttl_days, now) <==> now
            - cloned_at > ttl_days * SECONDS_PER_DAY,
{
}

/// The path of the entry `name` directly under the directory `dir`.
pub open spec fn child_path(dir: Seq<char>, name: Seq<char>) -> Seq<char> {
    dir + seq!['/'] + name
}

/// Builds the path of `name` directly under `dir`.
fn join_path(dir: &str, name: &str) -> (path: String)
    ensures
        path@ == child_path(dir@, name@),
{
    proof {
        reveal_strlit("/");
        assert("/"@ =~= seq!['/']);
    }
    dir.to_owned().concat("/").concat(name)
}

/// The path of the cache root under the home directory `home`.
pub fn cache_root_path(home: &str) -> (path: String)
    ensures
        path@ == child_path(home@, CACHE_DIR@),
{
    join_path(home, CACHE_DIR)
}

/// The path of the configuration file inside the cache root `root`.
pub fn config_file_path(root: &str) -> (path: String)
    ensures
        path@ == child_path(root@, CONFIG_FILE_NAME@),
{
    join_path(root, CONFIG_FILE_NAME)
}

/// The path of the checkout with the identifier `identifier` inside the
/// cache root `root`: one directory per identifier, directly under the root.
pub fn checkout_path(root: &str, identifier: &str) -> (path: String)
    ensures
        path@ == child_path(root@, identifier@),
{
    join_path(root, identifier)
}

/// What stands at the path of the cache root.
#[derive(Clone, Copy, Debug, PartialEq, Eq, Structural)]
pub enum RootState {
    /// Nothing is there.
    Missing,
    /// A directory is there.
    Directory,
    /// Something is there that is no directory.
    Occupied,
}

/// Decides what to do about the cache root before it is used: `Ok(true)`
/// where it is missing and has to be created, `Ok(false)` where the
/// directory is there already, and `CacheRootUnwritable` where something
/// else is in its place.
pub fn ensure_cache_root(found: RootState) -> (r: Result<bool, Error>)
    ensures
        found is Missing ==> r == Ok::<bool, Error>(true),
        found is Directory ==> r == Ok::<bool, Error>(false),
        found is Occupied ==> r == Err::<bool, Error>(Error::CacheRootUnwritable),
{
    match found {
        RootState::Missing => Ok(true),
        RootState::Directory => Ok(false),
        RootState::Occupied => Err(Error::CacheRootUnwritable),
    }
}

} // verus!
