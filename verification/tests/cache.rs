use resorepo::cache::{
    cache_root_path, checkout_path, config_file_path, ensure_cache_root, get_config, is_stale,
    read_config, CheckoutEntry, Config, ConfigFile, ConfigLoad, RootState, CACHE_DIR,
    CONFIG_FILE_NAME, DEFAULT_CACHE_TTL_DAYS, SECONDS_PER_DAY,
};
use resorepo::error::Error;

const DAY: u64 = 86_400;

fn cloned_at(time: u64) -> CheckoutEntry {
    CheckoutEntry::Checkout { modified: Some(time) }
}

#[test]
fn default_config_keeps_checkouts_for_seven_days() {
    assert_eq!(Config::default(), Config { cache_ttl_days: 7 });
    assert_eq!(DEFAULT_CACHE_TTL_DAYS, 7);
    assert_eq!(SECONDS_PER_DAY, DAY);
}

#[test]
fn missing_config_file_yields_the_default_to_be_written() {
    assert_eq!(
        get_config(ConfigFile::Absent),
        Ok(ConfigLoad { config: Config { cache_ttl_days: 7 }, write_default: true })
    );
}

#[test]
fn existing_config_file_is_the_source_of_truth() {
    assert_eq!(
        get_config(ConfigFile::Holds { cache_ttl_days: 30 }),
        Ok(ConfigLoad { config: Config { cache_ttl_days: 30 }, write_default: false })
    );
    assert_eq!(
        get_config(ConfigFile::Holds { cache_ttl_days: 0 }),
        Ok(ConfigLoad { config: Config { cache_ttl_days: 0 }, write_default: false })
    );
}

#[test]
fn corrupt_config_file_is_an_error_and_not_the_default() {
    assert_eq!(get_config(ConfigFile::Malformed), Err(Error::ConfigCorrupt));
    assert_eq!(get_config(ConfigFile::Holds { cache_ttl_days: -1 }), Err(Error::ConfigCorrupt));
    assert_eq!(
        get_config(ConfigFile::Holds { cache_ttl_days: i64::MIN }),
        Err(Error::ConfigCorrupt)
    );
    assert_eq!(
        get_config(ConfigFile::Holds { cache_ttl_days: 4_294_967_296 }),
        Err(Error::ConfigCorrupt)
    );
}

#[test]
fn read_config_accepts_every_count_of_days_that_fits() {
    assert_eq!(read_config(0), Ok(Config { cache_ttl_days: 0 }));
    assert_eq!(read_config(7), Ok(Config { cache_ttl_days: 7 }));
    assert_eq!(read_config(4_294_967_295), Ok(Config { cache_ttl_days: u32::MAX }));
    assert_eq!(read_config(4_294_967_296), Err(Error::ConfigCorrupt));
    assert_eq!(read_config(-7), Err(Error::ConfigCorrupt));
}

#[test]
fn default_config_round_trips() {
    let first = get_config(ConfigFile::Absent).unwrap();
    assert!(first.write_default);
    let written = i64::from(first.config.cache_ttl_days);
    let second = get_config(ConfigFile::Holds { cache_ttl_days: written }).unwrap();
    assert_eq!(second.config, Config::default());
    assert!(!second.write_default);
}

#[test]
fn default_config_round_trips_through_yaml() {
    let config = Config::default();
    let mut mapping = serde_yaml::Mapping::new();
    mapping.insert(
        serde_yaml::Value::String("cache_ttl_days".to_owned()),
        serde_yaml::Value::Number(serde_yaml::Number::from(config.cache_ttl_days)),
    );
    let text = serde_yaml::to_string(&serde_yaml::Value::Mapping(mapping)).unwrap();
    assert_eq!(text, "cache_ttl_days: 7\n");
    let read: serde_yaml::Value = serde_yaml::from_str(&text).unwrap();
    let days = read.get("cache_ttl_days").and_then(|value| value.as_i64()).unwrap();
    assert_eq!(
        get_config(ConfigFile::Holds { cache_ttl_days: days }),
        Ok(ConfigLoad { config: Config::default(), write_default: false })
    );
}

#[test]
fn zero_ttl_is_always_stale() {
    let now = 1_700_000_000;
    for entry in [
        CheckoutEntry::Missing,
        CheckoutEntry::Leftover,
        CheckoutEntry::Checkout { modified: None },
        cloned_at(now),
        cloned_at(now - 1),
        cloned_at(now + 1_000),
        cloned_at(0),
    ] {
        assert!(is_stale(&entry, 0, now));
    }
}

#[test]
fn fresh_after_clone_and_stale_once_older_than_ttl() {
    let clone_time = 1_700_000_000;
    let entry = cloned_at(clone_time);
    for days in [1u32, 7, 30] {
        let limit = u64::from(days) * DAY;
        assert!(!is_stale(&entry, days, clone_time));
        assert!(!is_stale(&entry, days, clone_time + 1));
        assert!(!is_stale(&entry, days, clone_time + limit - 1));
        assert!(!is_stale(&entry, days, clone_time + limit));
        assert!(is_stale(&entry, days, clone_time + limit + 1));
        assert!(is_stale(&entry, days, clone_time + 10 * limit));
    }
}

#[test]
fn seven_days_is_604800_seconds() {
    let entry = cloned_at(1_000);
    assert!(!is_stale(&entry, 7, 1_000 + 604_800));
    assert!(is_stale(&entry, 7, 1_000 + 604_801));
}

#[test]
fn missing_entry_is_stale() {
    assert!(is_stale(&CheckoutEntry::Missing, 7, 0));
    assert!(is_stale(&CheckoutEntry::Missing, u32::MAX, u64::MAX));
}

#[test]
fn leftover_entry_is_stale() {
    assert!(is_stale(&CheckoutEntry::Leftover, 7, 1_700_000_000));
}

#[test]
fn entry_without_modification_time_is_stale() {
    assert!(is_stale(&CheckoutEntry::Checkout { modified: None }, 7, 0));
    assert!(is_stale(&CheckoutEntry::Checkout { modified: None }, u32::MAX, 1));
}

#[test]
fn entry_modified_in_the_future_is_fresh() {
    assert!(!is_stale(&cloned_at(2_000), 1, 1_000));
    assert!(!is_stale(&cloned_at(u64::MAX), 1, 0));
}

#[test]
fn staleness_does_not_overflow_at_the_limits() {
    assert!(!is_stale(&cloned_at(0), u32::MAX, u64::from(u32::MAX) * DAY));
    assert!(is_stale(&cloned_at(0), u32::MAX, u64::from(u32::MAX) * DAY + 1));
    assert!(is_stale(&cloned_at(0), u32::MAX, u64::MAX));
    assert!(is_stale(&cloned_at(0), 1, u64::MAX));
}

#[test]
fn paths_lie_directly_under_their_directory() {
    assert_eq!(cache_root_path("/home/user"), "/home/user/.resorepo");
    assert_eq!(config_file_path("/home/user/.resorepo"), "/home/user/.resorepo/resorepo_config.yaml");
    assert_eq!(checkout_path("/home/user/.resorepo", "Hello-World"), "/home/user/.resorepo/Hello-World");
    assert_eq!(cache_root_path("/home/user"), format!("/home/user/{}", CACHE_DIR));
    assert_eq!(config_file_path("cache"), format!("cache/{}", CONFIG_FILE_NAME));
    assert_eq!(checkout_path("", ""), "/");
}

#[test]
fn cache_root_is_created_only_where_missing() {
    assert_eq!(ensure_cache_root(RootState::Missing), Ok(true));
    assert_eq!(ensure_cache_root(RootState::Directory), Ok(false));
    assert_eq!(ensure_cache_root(RootState::Occupied), Err(Error::CacheRootUnwritable));
}
