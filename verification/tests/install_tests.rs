use karate_cli::error::ExitCode;
use karate_cli::error::KarateError;
use karate_cli::install::ComponentSet;
use karate_cli::install::jar_component_status;
use karate_cli::install::jar_version_from_name;
use karate_cli::install::jre_component_status;
use karate_cli::install::is_karate_jar_name;
use karate_cli::install::plan_setup;
use karate_cli::install::select_latest_jar;
use karate_cli::install::select_update_items;
use karate_cli::install::validate_components;
use karate_cli::install::version_part;
use karate_cli::launch::build_classpath;
use karate_cli::launch::configured_java_candidates;
use karate_cli::launch::java_candidate_paths;
use karate_cli::platform::Os;

#[test]
fn test_validate_components() {
    let set = validate_components(&vec!["jar".to_string(), "JRE".to_string()]).expect("valid");
    assert!(set.jar);
    assert!(set.jre);
    let only_jar = validate_components(&vec!["jar".to_string()]).expect("valid");
    assert!(only_jar.jar);
    assert!(!only_jar.jre);
    let err = validate_components(&vec!["jar".to_string(), "jdk".to_string()]);
    assert_eq!(err, Err("jdk".to_string()));
}

#[test]
fn test_select_update_items() {
    let all = select_update_items(true, None).expect("valid");
    assert!(all.jar && all.jre);
    let none_named = select_update_items(false, None).expect("valid");
    assert!(none_named.jar && none_named.jre);
    let jar_item = "Jar".to_string();
    let only_jar = select_update_items(false, Some(&jar_item)).expect("valid");
    assert!(only_jar.jar && !only_jar.jre);
    let bad = "jdk".to_string();
    assert_eq!(select_update_items(false, Some(&bad)), Err("jdk".to_string()));
}

#[test]
fn test_component_status() {
    let s = jar_component_status(Some("1.5.1".to_string()), "1.5.2".to_string());
    assert!(s.has_update);
    let s2 = jar_component_status(Some("1.5.2".to_string()), "1.5.2".to_string());
    assert!(!s2.has_update);
    let s3 = jar_component_status(None, "1.5.2".to_string());
    assert!(s3.has_update);

    // runtime labels are compared by their version part
    let j = jre_component_status(Some("21.0.9-macosx-aarch64".to_string()), "21.0.9".to_string());
    assert!(!j.has_update);
    let j2 = jre_component_status(Some("21.0.8-macosx-aarch64".to_string()), "21.0.9".to_string());
    assert!(j2.has_update);
    assert_eq!(version_part("21.0.9-macosx-aarch64"), "21.0.9");
    assert_eq!(version_part("21.0.9"), "21.0.9");
}

#[test]
fn test_jar_name_rules() {
    assert!(is_karate_jar_name("karate-1.5.2.jar"));
    assert!(!is_karate_jar_name("karate-robot-1.5.2.jar"));
    assert!(!is_karate_jar_name("other-1.5.2.jar"));
    assert!(!is_karate_jar_name("karate-1.5.2.zip"));
    assert_eq!(jar_version_from_name("karate-1.5.2.jar"), Some("1.5.2".to_string()));
    assert_eq!(jar_version_from_name("karate-robot-1.5.2.jar"), None);
}

#[test]
fn test_select_latest_jar() {
    let names = vec![
        "karate-1.4.0.jar".to_string(),
        "karate-robot-9.9.9.jar".to_string(),
        "karate-1.5.2.jar".to_string(),
        "readme.txt".to_string(),
        "karate-1.5.1.jar".to_string(),
    ];
    assert_eq!(select_latest_jar(&names), Some("karate-1.5.2.jar".to_string()));
    assert_eq!(select_latest_jar(&vec!["readme.txt".to_string()]), None);
}

#[test]
fn test_plan_setup_downloads_only_missing() {
    let both = ComponentSet { jar: true, jre: true };
    let p = plan_setup(both, false, false, true);
    assert!(p.download_jre);
    assert!(!p.download_jar);
    let forced = plan_setup(both, true, true, true);
    assert!(forced.download_jre && forced.download_jar);
}

#[test]
fn test_setup_idempotent_scenario() {
    // first run: nothing installed, both components requested, no force
    let both = ComponentSet { jar: true, jre: true };
    let first = plan_setup(both, false, false, false);
    assert!(first.download_jre && first.download_jar);
    // its downloads make both components present
    let jre_available = true;
    let jar_installed = true;
    // second run with identical inputs plans zero downloads
    let second = plan_setup(both, false, jre_available, jar_installed);
    assert!(!second.download_jre);
    assert!(!second.download_jar);
}

#[test]
fn test_build_classpath_separators() {
    let jar = "/k/dist/karate-1.5.2.jar".to_string();
    let exts = vec!["/k/ext/a.jar".to_string(), "/k/ext/b.jar".to_string()];
    assert_eq!(
        build_classpath(&jar, &exts, Os::Linux),
        "/k/dist/karate-1.5.2.jar:/k/ext/a.jar:/k/ext/b.jar"
    );
    assert_eq!(
        build_classpath(&jar, &exts, Os::Windows),
        "/k/dist/karate-1.5.2.jar;/k/ext/a.jar;/k/ext/b.jar"
    );
    assert_eq!(build_classpath(&jar, &Vec::new(), Os::MacOS), "/k/dist/karate-1.5.2.jar");
}

#[test]
fn test_java_candidate_paths() {
    let c = java_candidate_paths("/k/jre/21", Os::Linux);
    assert_eq!(c, vec![
        "/k/jre/21/bin/java".to_string(),
        "/k/jre/21/Contents/Home/bin/java".to_string(),
        "/k/jre/21/jre/bin/java".to_string()
    ]);
    let w = java_candidate_paths("/k/jre/21", Os::Windows);
    assert_eq!(w[0], "/k/jre/21/bin/java.exe");
    let cfg = configured_java_candidates("/custom/jre");
    assert_eq!(cfg[1], "/custom/jre/bin/java.exe");
}

#[test]
fn test_exit_codes() {
    assert_eq!(ExitCode::Success.as_i32(), 0);
    assert_eq!(ExitCode::GeneralError.as_i32(), 1);
    assert_eq!(ExitCode::ConfigError.as_i32(), 2);
    assert_eq!(ExitCode::NetworkError.as_i32(), 3);
    assert_eq!(ExitCode::JreError.as_i32(), 4);
    assert_eq!(ExitCode::jvm_passthrough(0), 0);
    assert_eq!(ExitCode::jvm_passthrough(1), 101);
    assert_eq!(ExitCode::jvm_passthrough(-7), 107);
    assert_eq!(ExitCode::jvm_passthrough(200), 255);
    assert_eq!(ExitCode::jvm_passthrough(i32::MIN), 255);
    assert_eq!(ExitCode::from_jvm(17), ExitCode::GeneralError);
}

#[test]
fn test_error_exit_codes_and_messages() {
    assert_eq!(KarateError::NotBootstrapped.exit_code(), ExitCode::ConfigError);
    assert_eq!(KarateError::Config("x".to_string()).exit_code(), ExitCode::ConfigError);
    assert_eq!(KarateError::Network("x".to_string()).exit_code(), ExitCode::NetworkError);
    assert_eq!(KarateError::DownloadFailed("x".to_string()).exit_code(), ExitCode::NetworkError);
    assert_eq!(KarateError::Jre("x".to_string()).exit_code(), ExitCode::JreError);
    assert_eq!(KarateError::Other("x".to_string()).exit_code(), ExitCode::GeneralError);
    assert_eq!(
        KarateError::Network("boom".to_string()).message(),
        "Network error: boom"
    );
    assert_eq!(
        KarateError::ChecksumMismatch {
            file: "f.jar".to_string(),
            expected: "aa".to_string(),
            actual: "bb".to_string()
        }
        .message(),
        "Checksum mismatch for f.jar: expected aa, got bb"
    );
    assert_eq!(
        KarateError::UnsupportedPlatform { os: "sunos".to_string(), arch: "sparc".to_string() }
            .message(),
        "Unsupported platform: sunos-sparc"
    );
}
