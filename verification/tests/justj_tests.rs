use karate_cli::jre::InstalledJre;
use karate_cli::jre::JreCandidate;
use karate_cli::jre::JreProbe;
use karate_cli::jre::JreSource;
use karate_cli::jre::find_active_jre;
use karate_cli::jre::find_system_jre;
use karate_cli::justj::justj_manifest_url;
use karate_cli::justj::resolve_justj_info;
use karate_cli::justj::to_justj_platform;

#[test]
fn test_to_justj_platform() {
    assert_eq!(to_justj_platform("macos-aarch64"), "macosx-aarch64");
    assert_eq!(to_justj_platform("macos-x64"), "macosx-x86_64");
    assert_eq!(to_justj_platform("linux-x64"), "linux-x86_64");
    assert_eq!(to_justj_platform("linux-aarch64"), "linux-aarch64");
    assert_eq!(to_justj_platform("windows-x64"), "win32-x86_64");
    assert_eq!(to_justj_platform("odd-platform"), "odd-platform");
}

#[test]
fn test_justj_manifest_url() {
    assert_eq!(
        justj_manifest_url(21),
        "https://download.eclipse.org/justj/jres/21/downloads/latest/justj.manifest"
    );
}

#[test]
fn test_resolve_justj_info() {
    let body = "\
../20251104_1502/org.eclipse.justj.openjdk.hotspot.jre.full-21.0.9-macosx-aarch64.tar.gz\n\
../20251104_1502/org.eclipse.justj.openjdk.hotspot.jre.full.stripped-21.0.9-linux-x86_64.tar.gz\n\
../20251104_1502/org.eclipse.justj.openjdk.hotspot.jre.full.stripped-21.0.9-macosx-aarch64.tar.gz\n";
    let info = resolve_justj_info(body, 21, "macos-aarch64").expect("entry for platform");
    assert_eq!(info.version_label, "21.0.9-macosx-aarch64");
    assert_eq!(
        info.download_url,
        "https://download.eclipse.org/justj/jres/21/downloads/latest/\
../20251104_1502/org.eclipse.justj.openjdk.hotspot.jre.full.stripped-21.0.9-macosx-aarch64.tar.gz"
    );
}

#[test]
fn test_resolve_justj_info_unsupported_platform() {
    let body = "org.eclipse.justj.openjdk.hotspot.jre.full.stripped-21.0.9-linux-x86_64.tar.gz\n";
    assert!(resolve_justj_info(body, 21, "macos-aarch64").is_none());
}

fn managed(version: &str, platform: &str, exe_exists: bool, probed: bool) -> JreCandidate {
    JreCandidate {
        jre: InstalledJre {
            version: version.to_string(),
            platform: platform.to_string(),
            path: format!("/k/jre/{}-{}", version, platform),
            java_executable: format!("/k/jre/{}-{}/bin/java", version, platform),
            source: JreSource::Managed,
            major_version: Some(21),
        },
        probe: JreProbe {
            exe_exists,
            version_line: if probed {
                Some("openjdk version \"21.0.9\"".to_string())
            } else {
                None
            },
        },
    }
}

fn system_jre(major: u8) -> InstalledJre {
    InstalledJre {
        version: format!("{}.0.1", major),
        platform: "macos-aarch64".to_string(),
        path: "/usr/lib/jvm".to_string(),
        java_executable: "/usr/lib/jvm/bin/java".to_string(),
        source: JreSource::JavaHome,
        major_version: Some(major),
    }
}

#[test]
fn test_find_active_prefers_managed_over_system() {
    // both a valid managed runtime for the current platform and a valid
    // environment-declared runtime exist: the managed one wins
    let managed_list = vec![managed("21.0.9", "macos-aarch64", true, true)];
    let system = Some(system_jre(21));
    let active = find_active_jre(&managed_list, system, "macos-aarch64").expect("active");
    assert_eq!(active.source, JreSource::Managed);
    assert_eq!(active.version, "21.0.9");
}

#[test]
fn test_find_active_skips_wrong_platform_and_invalid() {
    let managed_list = vec![
        managed("21.0.9", "linux-x64", true, true),  // wrong platform
        managed("21.0.8", "macos-aarch64", true, false),  // probe failed
    ];
    let active = find_active_jre(&managed_list, Some(system_jre(21)), "macos-aarch64")
        .expect("system fallback");
    assert_eq!(active.source, JreSource::JavaHome);
}

#[test]
fn test_find_active_rejects_old_system() {
    let active = find_active_jre(&Vec::new(), Some(system_jre(17)), "macos-aarch64");
    assert!(active.is_none());
}

#[test]
fn test_find_system_jre_precedence() {
    let jh = system_jre(21);
    let mut path_jre = system_jre(22);
    path_jre.source = JreSource::Path;
    let chosen = find_system_jre(Some(jh.clone()), Some(path_jre.clone())).expect("jre");
    assert_eq!(chosen.source, JreSource::JavaHome);
    let fallback = find_system_jre(None, Some(path_jre)).expect("jre");
    assert_eq!(fallback.source, JreSource::Path);
    assert!(find_system_jre(None, None).is_none());
}
