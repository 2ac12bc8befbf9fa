use ham_logbook::config::{
    expand_url_template, AppConfig, ConfigError, ExternalLinksConfig, OperationalConfig,
    DEFAULT_CALLSIGN_URL, DEFAULT_GRID_URL,
};

#[test]
fn normalizes_and_validates_callsign() {
    let mut config = AppConfig::default();
    config.set_callsign(" pu2xyz ").unwrap();
    assert_eq!(config.station.callsign, "PU2XYZ");
    assert_eq!(config.set_callsign(""), Err(ConfigError::EmptyCallsign));
}

#[test]
fn validates_and_expands_external_link_templates() {
    let mut config = AppConfig::default();
    config
        .set_external_links(
            "https://example.com/call/{callsign}",
            "https://example.com/grid?q={grid}",
        )
        .unwrap();
    assert_eq!(
        expand_url_template(&config.external_links.callsign_url, "{callsign}", "PU2/ABC")
            .unwrap(),
        "https://example.com/call/PU2%2FABC"
    );
    assert_eq!(
        config.set_external_links("file:///{callsign}", DEFAULT_GRID_URL),
        Err(ConfigError::InvalidUrlScheme)
    );
    assert_eq!(
        config.set_external_links("https://example.com/call", DEFAULT_GRID_URL),
        Err(ConfigError::MissingPlaceholder("{callsign}"))
    );
}

#[test]
fn sanitizes_operational_navigation_values_and_directories() {
    let mut operational = OperationalConfig {
        active_page: 99,
        active_filter: -1,
        ..Default::default()
    };
    assert_eq!(operational.sanitized_active_page(), 0);
    assert_eq!(operational.sanitized_active_filter(), 0);
    assert!(OperationalConfig::existing_directory("/path/that/does/not/exist").is_none());

    operational.active_page = 3;
    operational.active_filter = 2;
    assert_eq!(operational.sanitized_active_page(), 3);
    assert_eq!(operational.sanitized_active_filter(), 2);
}

#[test]
fn defaults_point_at_the_public_lookup_pages() {
    let links = ExternalLinksConfig::default();
    assert_eq!(links.callsign_url, DEFAULT_CALLSIGN_URL);
    assert_eq!(links.grid_url, DEFAULT_GRID_URL);
    assert_eq!(AppConfig::default().external_links, links);
}

#[test]
fn expands_every_placeholder_and_encodes_unicode() {
    assert_eq!(
        expand_url_template("http://x/{grid}/{grid}", "{grid}", "GG66 aa").unwrap(),
        "http://x/GG66%20aa/GG66%20aa"
    );
    assert_eq!(
        expand_url_template("https://x/{callsign}", "{callsign}", "João-1_.~").unwrap(),
        "https://x/Jo%C3%A3o-1_.~"
    );
    assert_eq!(
        expand_url_template("ftp://x/{grid}", "{grid}", "AA").unwrap_err(),
        ConfigError::InvalidUrlScheme
    );
}

#[test]
fn refused_links_leave_the_settings_unchanged_and_explain_why() {
    let mut config = AppConfig::default();
    let before = config.clone();
    let error = config
        .set_external_links("https://example.com/{callsign}", "https://example.com/")
        .unwrap_err();
    assert_eq!(error, ConfigError::MissingPlaceholder("{grid}"));
    assert_eq!(error.message(), "Lookup URL must contain {grid}");
    assert_eq!(config, before);
    assert_eq!(
        ConfigError::EmptyCallsign.message(),
        "Local station callsign is required"
    );
}

#[test]
fn keeps_a_directory_only_when_the_file_system_names_one() {
    assert_eq!(
        ham_logbook::config::OperationalConfig::directory_if("/tmp/logs", true),
        Some("/tmp/logs".to_string())
    );
    assert_eq!(ham_logbook::config::OperationalConfig::directory_if("/tmp/logs", false), None);
}

#[test]
fn an_empty_placeholder_is_expanded_as_str_replace_does() {
    assert_eq!(
        expand_url_template("http://a", "", "-").unwrap(),
        "-h-t-t-p-:-/-/-a-"
    );
    assert_eq!(
        expand_url_template("http://a", "", "é").unwrap(),
        "http://a".replace("", "%C3%A9")
    );
}

#[test]
fn callsigns_are_trimmed_uppercased_and_refused_only_when_blank() {
    let mut config = AppConfig::default();
    config.set_callsign("  py2çab ").unwrap();
    assert_eq!(config.station.callsign, "PY2ÇAB");
    config.set_callsign("straße").unwrap();
    assert_eq!(config.station.callsign, "STRASSE");
    assert_eq!(config.set_callsign(" \t "), Err(ConfigError::EmptyCallsign));
    assert_eq!(config.station.callsign, "STRASSE");
}
