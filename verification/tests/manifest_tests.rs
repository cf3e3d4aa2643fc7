use karate_cli::error::KarateError;
use karate_cli::manifest::Artifact;
use karate_cli::manifest::Channel;
use karate_cli::manifest::JreConfig;
use karate_cli::manifest::Manifest;
use karate_cli::manifest::ManifestDefaults;
use karate_cli::manifest::ManifestPlugin;
use karate_cli::manifest::build_jar_url;
use karate_cli::manifest::create_default_manifest;
use karate_cli::manifest::default_jar_url_template;
use karate_cli::manifest::resolve_jre_artifact;
use karate_cli::manifest::resolve_version;
use karate_cli::platform::Arch;
use karate_cli::platform::Os;
use karate_cli::platform::Platform;

fn sample_manifest() -> Manifest {
    let jre = JreConfig {
        version: "21.0.9".to_string(),
        platforms: vec![
            (
                "macos-aarch64".to_string(),
                Artifact { url: "https://example.test/jre-mac.tar.gz".to_string(), sha256: None },
            ),
            (
                "linux-x64".to_string(),
                Artifact {
                    url: "https://example.test/jre-linux.tar.gz".to_string(),
                    sha256: Some("AB12".to_string()),
                },
            ),
        ],
    };
    let stable = Channel {
        version: "2.0.0".to_string(),
        karate_jar: Artifact { url: "https://example.test/karate.jar".to_string(), sha256: None },
        jre,
        plugins: vec![(
            "xplorer".to_string(),
            ManifestPlugin {
                version: "1.3.0".to_string(),
                url: "https://example.test/xplorer.jar".to_string(),
                sha256: None,
            },
        )],
    };
    Manifest {
        schema_version: 1,
        channels: vec![("stable".to_string(), stable)],
        defaults: ManifestDefaults { karate_jar_url_template: None, jre_version: None },
    }
}

#[test]
fn test_build_jar_url() {
    let url = build_jar_url(default_jar_url_template(), "2.0.0");
    assert_eq!(
        url,
        "https://github.com/karatelabs/karate/releases/download/v2.0.0/karate-2.0.0-all.jar"
    );
}

#[test]
fn test_get_channel() {
    let m = sample_manifest();
    assert!(m.get_channel("stable").is_some());
    assert!(m.get_channel("beta").is_none());
    assert_eq!(m.get_channel("stable").unwrap().version, "2.0.0");
}

#[test]
fn test_get_jre_artifact_and_plugin() {
    let m = sample_manifest();
    let mac = Platform { os: Os::MacOS, arch: Arch::Aarch64 };
    let win = Platform { os: Os::Windows, arch: Arch::X64 };
    let a = m.get_jre_artifact("stable", &mac).expect("artifact for macos");
    assert_eq!(a.url, "https://example.test/jre-mac.tar.gz");
    assert!(m.get_jre_artifact("stable", &win).is_none());
    let p = m.get_plugin("stable", "xplorer").expect("plugin");
    assert_eq!(p.version, "1.3.0");
    assert!(m.get_plugin("stable", "unknown").is_none());
}

#[test]
fn test_resolve_version_latest() {
    let m = sample_manifest();
    let v = resolve_version(&m, "stable", None).expect("version");
    assert_eq!(v, "2.0.0");
}

#[test]
fn test_resolve_version_pinned() {
    let m = sample_manifest();
    let pinned = "1.9.5".to_string();
    let v = resolve_version(&m, "stable", Some(&pinned)).expect("version");
    assert_eq!(v, "1.9.5");
}

#[test]
fn test_resolve_version_missing_channel() {
    let m = sample_manifest();
    let r = resolve_version(&m, "nightly", None);
    assert!(matches!(r, Err(KarateError::Other(_))));
}

#[test]
fn test_resolve_jre_artifact_missing_is_error() {
    let m = sample_manifest();
    let win = Platform { os: Os::Windows, arch: Arch::X64 };
    let r = resolve_jre_artifact(&m, "stable", &win);
    assert!(matches!(r, Err(KarateError::Other(_))));
    let mac = Platform { os: Os::MacOS, arch: Arch::Aarch64 };
    let a = resolve_jre_artifact(&m, "stable", &mac).expect("artifact");
    assert_eq!(a.url, "https://example.test/jre-mac.tar.gz");
}

#[test]
fn test_create_default_manifest_offline() {
    let m = create_default_manifest();
    assert_eq!(m.schema_version, 1);
    assert!(m.channels.is_empty());
    assert_eq!(
        m.defaults.karate_jar_url_template.as_deref(),
        Some("https://github.com/karatelabs/karate/releases/download/v{version}/karate-{version}-all.jar")
    );
    assert_eq!(m.defaults.jre_version.as_deref(), Some("17.0.12"));
    // the minimal manifest resolves no artifact rather than crashing
    assert!(m.get_channel("stable").is_none());
}
