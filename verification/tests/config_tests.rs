use karate_cli::config::Config;
use karate_cli::config::load_merged_config;

#[test]
fn test_default_config() {
    let config = Config::default();
    assert_eq!(config.channel, "stable");
    assert_eq!(config.karate_version, "latest");
    assert!(config.check_updates);
}

#[test]
fn test_config_merge() {
    let mut base = Config::default();
    let override_config = Config {
        channel: "beta".to_string(),
        karate_version: "2.0.0".to_string(),
        jre_path: Some("/custom/jre".to_string()),
        dist_path: Some("/custom/dist".to_string()),
        jvm_opts: Some("-Xmx1g".to_string()),
        check_updates: false,
    };

    base.merge(&override_config);

    assert_eq!(base.channel, "beta");
    assert_eq!(base.karate_version, "2.0.0");
    assert_eq!(base.jre_path, Some("/custom/jre".to_string()));
    assert_eq!(base.dist_path, Some("/custom/dist".to_string()));
    assert_eq!(base.jvm_opts, Some("-Xmx1g".to_string()));
    assert!(!base.check_updates);
}

#[test]
fn test_merge_keeps_defaults() {
    let mut base = Config {
        channel: "beta".to_string(),
        karate_version: "1.5.0".to_string(),
        jre_path: Some("/a".to_string()),
        dist_path: None,
        jvm_opts: None,
        check_updates: true,
    };
    let other = Config::default();
    base.merge(&other);
    assert_eq!(base.channel, "beta");
    assert_eq!(base.karate_version, "1.5.0");
    assert_eq!(base.jre_path, Some("/a".to_string()));
    assert!(base.check_updates);
}

#[test]
fn test_load_merged_config_precedence() {
    let global = Config {
        channel: "beta".to_string(),
        karate_version: "1.9.0".to_string(),
        jre_path: Some("/global/jre".to_string()),
        dist_path: None,
        jvm_opts: None,
        check_updates: true,
    };
    let local = Config {
        channel: "stable".to_string(),
        karate_version: "2.0.0".to_string(),
        jre_path: Some("/local/jre".to_string()),
        dist_path: None,
        jvm_opts: Some("-Xms256m".to_string()),
        check_updates: true,
    };
    let merged = load_merged_config(Some(&global), Some(&local));
    // the local channel is the default, so the global one stands
    assert_eq!(merged.channel, "beta");
    // the local version differs from the default and wins
    assert_eq!(merged.karate_version, "2.0.0");
    assert_eq!(merged.jre_path, Some("/local/jre".to_string()));
    assert_eq!(merged.dist_path, None);
    assert_eq!(merged.jvm_opts, Some("-Xms256m".to_string()));
    assert!(merged.check_updates);
}

#[test]
fn test_load_merged_config_no_files() {
    let merged = load_merged_config(None, None);
    assert_eq!(merged.channel, "stable");
    assert_eq!(merged.karate_version, "latest");
    assert_eq!(merged.jre_path, None);
    assert!(merged.check_updates);
}
