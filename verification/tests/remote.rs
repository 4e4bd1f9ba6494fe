use quantumtv::remote::{
    check_remote_url, fluid_search_enabled, yellow_filter_disabled, UrlParts, is_local_hostname, is_local_or_private_ip, parse_ipv4, resolve_enabled_source, search_sites,
    validate_remote_url, IpAddress, SourceEntry, SourceSettings,
};

fn entry(key: &str, api: &str, name: &str, disabled: bool) -> SourceEntry {
    SourceEntry {
        key: Some(key.to_string()),
        api: Some(api.to_string()),
        name: Some(name.to_string()),
        detail: None,
        disabled: Some(disabled),
        is_adult: None,
    }
}

#[test]
fn resolve_enabled_source_returns_only_enabled_match() {
    let config = SourceSettings {
        allow_lan_sources: false,
        sources: Some(vec![
            entry("a", "https://a.example.com", "A", true),
            entry("b", "https://b.example.com", "B", false),
        ]),
        fluid_search: None,
        disable_yellow_filter: None,
    };
    let source = resolve_enabled_source(&config, "b").expect("source b");
    assert_eq!(source.key, "b");
    assert_eq!(source.api, "https://b.example.com");
    assert!(resolve_enabled_source(&config, "a").is_none());
    assert!(resolve_enabled_source(&config, "missing").is_none());
}

#[test]
fn validate_remote_url_rejects_non_http_schemes() {
    let result = validate_remote_url("file:///tmp/test.m3u8", false);
    assert!(result.is_err());
}

#[test]
fn validate_remote_url_rejects_lan_hosts_when_disabled() {
    let result = validate_remote_url("http://192.168.1.20/video.m3u8", false);
    assert!(result.is_err());
}

#[test]
fn validate_remote_url_allows_lan_hosts_when_enabled() {
    let result = validate_remote_url("http://192.168.1.20/video.m3u8", true);
    assert!(result.is_ok());
}

#[test]
fn resolve_enabled_source_filters_lan_source_when_disallowed() {
    let config = SourceSettings {
        allow_lan_sources: false,
        sources: Some(vec![
            entry("lan", "http://192.168.1.10/api.php/provide/vod", "LAN", false),
            entry("public", "https://vod.example.com/api.php/provide/vod", "Public", false),
        ]),
        fluid_search: None,
        disable_yellow_filter: None,
    };
    assert!(resolve_enabled_source(&config, "lan").is_none());
    assert!(resolve_enabled_source(&config, "public").is_some());
}

#[test]
fn validate_remote_url_messages() {
    assert_eq!(
        validate_remote_url("ftp://example.com/a", false).unwrap_err(),
        "Unsupported URL scheme: ftp"
    );
    assert_eq!(
        validate_remote_url("https://user:pw@example.com/a", false).unwrap_err(),
        "URLs with embedded credentials are not allowed"
    );
    assert!(validate_remote_url("not a url", false).unwrap_err().starts_with("Invalid URL: "));
    assert_eq!(
        validate_remote_url("http://localhost:8080/", false).unwrap_err(),
        "LAN and localhost URLs are disabled"
    );
    assert_eq!(
        validate_remote_url("http://[::1]/", false).unwrap_err(),
        "LAN and localhost URLs are disabled"
    );
    let ok = validate_remote_url("https://Example.com/x", false).expect("public");
    assert_eq!(ok.scheme, "https");
    assert_eq!(ok.host, Some("example.com".to_string()));
}

#[test]
fn local_hostnames() {
    assert!(is_local_hostname("LOCALHOST."));
    assert!(is_local_hostname("nas.local"));
    assert!(is_local_hostname("router.home.arpa"));
    assert!(is_local_hostname("intranet"));
    assert!(!is_local_hostname("example.com"));
}

#[test]
fn private_addresses() {
    assert!(is_local_or_private_ip(IpAddress::V4(10, 1, 2, 3)));
    assert!(is_local_or_private_ip(IpAddress::V4(172, 16, 0, 1)));
    assert!(!is_local_or_private_ip(IpAddress::V4(172, 32, 0, 1)));
    assert!(is_local_or_private_ip(IpAddress::V4(203, 0, 113, 7)));
    assert!(!is_local_or_private_ip(IpAddress::V4(8, 8, 8, 8)));
    assert!(is_local_or_private_ip(IpAddress::V6([0, 0, 0, 0, 0, 0, 0, 1])));
    assert!(is_local_or_private_ip(IpAddress::V6([0xfd00, 0, 0, 0, 0, 0, 0, 1])));
    assert!(is_local_or_private_ip(IpAddress::V6([0xfe80, 0, 0, 0, 0, 0, 0, 1])));
    assert!(!is_local_or_private_ip(IpAddress::V6([0x2001, 0xdb8, 0, 0, 0, 0, 0, 1])));
}

#[test]
fn ipv4_text_in_dotted_decimal() {
    let expected: [(&str, Option<[u8; 4]>); 10] = [
        ("1.2.3.4", Some([1, 2, 3, 4])),
        ("255.255.255.255", Some([255, 255, 255, 255])),
        ("0.0.0.0", Some([0, 0, 0, 0])),
        ("01.2.3.4", None),
        ("256.1.1.1", None),
        ("1.2.3", None),
        ("1.2.3.4.5", None),
        ("a.b.c.d", None),
        ("+1.2.3.4", None),
        ("", None),
    ];
    for (text, want) in expected {
        let ours = match parse_ipv4(text) {
            Some(IpAddress::V4(a, b, c, d)) => Some([a, b, c, d]),
            _ => None,
        };
        assert_eq!(ours, want, "{}", text);
    }
}

#[test]
fn search_sites_keep_usable_and_non_adult() {
    let mut adult = entry("x", "https://x.example.com", "X", false);
    adult.is_adult = Some(true);
    let mut nameless = entry("n", "https://n.example.com", "N", false);
    nameless.name = None;
    let config = SourceSettings {
        allow_lan_sources: false,
        sources: Some(vec![
            entry("a", "https://a.example.com", "A", false),
            adult,
            nameless,
            entry("lan", "http://10.0.0.2/api", "L", false),
        ]),
        fluid_search: None,
        disable_yellow_filter: None,
    };
    let sites = search_sites(&config);
    assert_eq!(sites.len(), 1);
    assert_eq!(sites[0].key, "a");
    let mut open = config.clone();
    open.disable_yellow_filter = Some(true);
    assert_eq!(search_sites(&open).len(), 2);
}

fn parts(scheme: &str, username: &str, host: Option<&str>) -> UrlParts {
    UrlParts {
        scheme: scheme.to_string(),
        username: username.to_string(),
        password: None,
        host: host.map(|h| h.to_string()),
        text: format!("{}://{}/", scheme, host.unwrap_or("")),
    }
}

#[test]
fn check_remote_url_applies_rules_in_order() {
    assert_eq!(
        check_remote_url(Err("relative URL without a base".to_string()), false).unwrap_err(),
        "Invalid URL: relative URL without a base"
    );
    assert_eq!(
        check_remote_url(Ok(parts("ftp", "", Some("a.com"))), false).unwrap_err(),
        "Unsupported URL scheme: ftp"
    );
    assert_eq!(
        check_remote_url(Ok(parts("https", "me", Some("a.com"))), false).unwrap_err(),
        "URLs with embedded credentials are not allowed"
    );
    assert_eq!(check_remote_url(Ok(parts("https", "", None)), false).unwrap_err(), "URL must include a host");
    assert_eq!(
        check_remote_url(Ok(parts("http", "", Some("192.168.1.2"))), false).unwrap_err(),
        "LAN and localhost URLs are disabled"
    );
    assert!(check_remote_url(Ok(parts("http", "", Some("192.168.1.2"))), true).is_ok());
    assert_eq!(check_remote_url(Ok(parts("https", "", Some("a.com"))), false).unwrap().host, Some("a.com".to_string()));
}

#[test]
fn search_switches_default_on_and_off() {
    let mut config = SourceSettings {
        allow_lan_sources: false,
        sources: None,
        fluid_search: None,
        disable_yellow_filter: None,
    };
    assert!(fluid_search_enabled(&config));
    assert!(!yellow_filter_disabled(&config));
    config.fluid_search = Some(false);
    config.disable_yellow_filter = Some(true);
    assert!(!fluid_search_enabled(&config));
    assert!(yellow_filter_disabled(&config));
}
