use traefik_dns::settings::{
    count_digits, interval_of, search_dirs, CloudflareSettings, ConfigError, Credentials,
    Provider, Route53Settings, Settings, MAX_INTERVAL_DIGITS,
};

fn with_interval(text: &str) -> Settings {
    Settings { traefik_url: String::new(), update_interval: text.to_string(), provider: None }
}

#[test]
fn interval_is_read_in_nanoseconds() {
    assert_eq!(with_interval("30s").interval_nanos().unwrap(), 30_000_000_000);
    assert_eq!(with_interval("5min").interval_nanos().unwrap(), 300_000_000_000);
    assert_eq!(with_interval("1hour 12min 5s").interval_nanos().unwrap(), 4_325_000_000_000);
    assert_eq!(with_interval("32ms").interval_nanos().unwrap(), 32_000_000);
    assert_eq!(with_interval("17ns").interval_nanos().unwrap(), 17);
    assert_eq!(with_interval("0").interval_nanos().unwrap(), 0);
}

#[test]
fn interval_that_is_no_duration_is_refused() {
    assert!(matches!(with_interval("").interval_nanos(), Err(ConfigError::BadInterval(_))));
    assert!(matches!(with_interval("soon").interval_nanos(), Err(ConfigError::BadInterval(_))));
    assert!(matches!(with_interval("30").interval_nanos(), Err(ConfigError::BadInterval(_))));
    assert!(matches!(with_interval("30 parsecs").interval_nanos(), Err(ConfigError::BadInterval(_))));
}

#[test]
fn interval_beyond_64_bits_of_nanoseconds_is_too_long() {
    // 584 years fit, 585 do not.
    assert!(with_interval("584years").interval_nanos().is_ok());
    assert!(matches!(with_interval("585years").interval_nanos(), Err(ConfigError::IntervalTooLong)));
}

#[test]
fn interval_of_keeps_what_fits() {
    assert_eq!(interval_of(Ok(0)).unwrap(), 0);
    assert_eq!(interval_of(Ok(1_000_000_000)).unwrap(), 1_000_000_000);
    assert_eq!(interval_of(Ok(u64::MAX as u128)).unwrap(), u64::MAX);
    assert!(matches!(interval_of(Ok(u64::MAX as u128 + 1)), Err(ConfigError::IntervalTooLong)));
    assert!(matches!(interval_of(Ok(u128::MAX)), Err(ConfigError::IntervalTooLong)));
    assert!(matches!(
        interval_of(Err(humantime::DurationError::Empty)),
        Err(ConfigError::BadInterval(humantime::DurationError::Empty))
    ));
}

#[test]
fn interval_of_too_many_digits_is_refused_unread() {
    assert_eq!(MAX_INTERVAL_DIGITS, 11);
    // Eleven digits are read, twelve are not.
    assert_eq!(with_interval("00000000030s").interval_nanos().unwrap(), 30_000_000_000);
    assert_eq!(with_interval("18446744073ms").interval_nanos().unwrap(), 18_446_744_073_000_000);
    assert!(matches!(
        with_interval("99999999999s").interval_nanos(),
        Err(ConfigError::IntervalTooLong)
    ));
    assert!(matches!(
        with_interval("000000000030s").interval_nanos(),
        Err(ConfigError::IntervalTooManyDigits)
    ));
    assert!(matches!(
        with_interval("1h 2m 3s 4ms 5us 123456ns 7s").interval_nanos(),
        Err(ConfigError::IntervalTooManyDigits)
    ));
    // Digits count before they are read: this text is no duration.
    assert!(matches!(
        with_interval("x123456789012").interval_nanos(),
        Err(ConfigError::IntervalTooManyDigits)
    ));
}

#[test]
fn interval_at_the_end_of_all_durations_is_refused_unread() {
    assert!(matches!(
        with_interval("18446744073709551615s1000ms").interval_nanos(),
        Err(ConfigError::IntervalTooManyDigits)
    ));
    assert!(matches!(
        with_interval("18446744073709551614.5s1.5s").interval_nanos(),
        Err(ConfigError::IntervalTooManyDigits)
    ));
}

#[test]
fn digits_are_counted() {
    assert_eq!(count_digits(""), 0);
    assert_eq!(count_digits("30s"), 2);
    assert_eq!(count_digits("1hour 12min 5s"), 4);
    assert_eq!(count_digits("0123456789"), 10);
    assert_eq!(count_digits("4.2s"), 2);
    assert_eq!(count_digits("µs/:@ten"), 0);
    assert_eq!(count_digits("٣٠s"), 0);
}

#[test]
fn settings_file_is_searched_in_three_places() {
    assert_eq!(
        search_dirs("/home/me/.config/traefik-dns-rs".to_string(), true),
        vec!["/home/me/.config/traefik-dns-rs", ".", "/etc/traefik-dns-rs"]
    );
    assert_eq!(traefik_dns::settings::CONFIG_FILE, "config.toml");
}

#[test]
fn system_directory_is_searched_on_linux_only() {
    assert_eq!(
        search_dirs("/Users/me/Library/traefik-dns-rs".to_string(), false),
        vec!["/Users/me/Library/traefik-dns-rs", "."]
    );
    assert_eq!(search_dirs(String::new(), false), vec!["", "."]);
    assert_eq!(search_dirs(String::new(), true), vec!["", ".", "/etc/traefik-dns-rs"]);
}

#[test]
fn first_place_that_holds_a_file_wins() {
    assert_eq!(Settings::find_config(&vec![true, true, true]).unwrap(), 0);
    assert_eq!(Settings::find_config(&vec![false, true, true]).unwrap(), 1);
    assert_eq!(Settings::find_config(&vec![false, false, true]).unwrap(), 2);
    assert!(matches!(
        Settings::find_config(&vec![false, false, false]),
        Err(ConfigError::NoConfigFound)
    ));
    assert!(matches!(Settings::find_config(&vec![]), Err(ConfigError::NoConfigFound)));
}

#[test]
fn token_is_preferred_to_key() {
    let settings = CloudflareSettings {
        token: Some("t".to_string()),
        email: Some("e".to_string()),
        api_key: Some("k".to_string()),
        ..CloudflareSettings::default()
    };
    assert_eq!(settings.credentials(), Some(Credentials::UserAuthToken { token: "t".to_string() }));
}

#[test]
fn key_needs_email_and_api_key() {
    let mut settings = CloudflareSettings {
        email: Some("e".to_string()),
        api_key: Some("k".to_string()),
        ..CloudflareSettings::default()
    };
    assert_eq!(
        settings.credentials(),
        Some(Credentials::UserAuthKey { email: "e".to_string(), key: "k".to_string() })
    );
    settings.api_key = None;
    assert_eq!(settings.credentials(), None);
    settings.api_key = Some("k".to_string());
    settings.email = None;
    assert_eq!(settings.credentials(), None);
    assert_eq!(CloudflareSettings::default().credentials(), None);
}

#[test]
fn cloudflare_provider_takes_the_settings_or_the_defaults() {
    let mut settings = CloudflareSettings {
        zone_id: "zone".to_string(),
        destination: "dest".to_string(),
        ..CloudflareSettings::default()
    };
    let provider = settings.provider();
    assert_eq!(provider.zone_id(), "zone");
    assert_eq!(provider.destination(), "dest");
    assert_eq!(provider.ttl(), &300);
    assert_eq!(provider.proxied(), &false);

    settings.ttl = Some(120);
    settings.proxied = Some(true);
    let provider = settings.provider();
    assert_eq!(provider.ttl(), &120);
    assert_eq!(provider.proxied(), &true);
}

#[test]
fn route53_provider_takes_the_settings_or_the_default() {
    let mut settings = Route53Settings {
        zone_id: "zone".to_string(),
        destination: "dest".to_string(),
        ttl: None,
    };
    let provider = settings.provider();
    assert_eq!(provider.hosted_zone_id(), "zone");
    assert_eq!(provider.destination(), "dest");
    assert_eq!(provider.ttl(), &300);

    settings.ttl = Some(-5);
    assert_eq!(settings.provider().ttl(), &-5);
}

#[test]
fn default_settings_name_no_provider() {
    let settings = Settings::default();
    assert_eq!(settings.traefik_url, "");
    assert_eq!(settings.update_interval, "");
    assert!(settings.provider.is_none());
    let chosen = Settings {
        provider: Some(Provider::Route53(Route53Settings::default())),
        ..Settings::default()
    };
    assert!(matches!(chosen.provider, Some(Provider::Route53(_))));
}
