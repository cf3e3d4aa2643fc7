//! The release manifest: channels, artifact descriptors, and version
//! resolution.
//!
//! Name-to-entry maps are held as vectors of pairs looked up by first
//! match, mirroring a JSON object read in document order.

use vstd::prelude::*;

use crate::error::KarateError;
use crate::platform::Platform;
use crate::platform::spec_manifest_key;
use crate::text::concat2;
use crate::text::eq_str;
use crate::text::replace_all;
use crate::text::spec_replace;

verus! {

/// An artifact descriptor: download URL and optional expected checksum.
/// Absence of a checksum means integrity verification is skipped for that
/// artifact.
#[derive(Debug)]
pub struct Artifact {
    pub url: String,
    pub sha256: Option<String>,
}

impl Clone for Artifact {
    fn clone(&self) -> (r: Self)
        ensures
            r == *self,
    {
        Artifact {
            url: self.url.clone(),
            sha256: match &self.sha256 {
                Some(s) => Some(s.clone()),
                None => None,
            },
        }
    }
}

/// Runtime configuration for a channel: a version and a per-platform
/// artifact map.
#[derive(Debug, Clone)]
pub struct JreConfig {
    pub version: String,
    pub platforms: Vec<(String, Artifact)>,
}

/// Plugin configuration in the manifest.
#[derive(Debug, Clone)]
pub struct ManifestPlugin {
    pub version: String,
    pub url: String,
    pub sha256: Option<String>,
}

/// Channel configuration (stable, beta, nightly).
#[derive(Debug, Clone)]
pub struct Channel {
    pub version: String,
    pub karate_jar: Artifact,
    pub jre: JreConfig,
    pub plugins: Vec<(String, ManifestPlugin)>,
}

/// Manifest defaults for convention-over-configuration.
#[derive(Debug, Clone)]
pub struct ManifestDefaults {
    pub karate_jar_url_template: Option<String>,
    pub jre_version: Option<String>,
}

/// The full manifest structure.
#[derive(Debug, Clone)]
pub struct Manifest {
    pub schema_version: u32,
    pub channels: Vec<(String, Channel)>,
    pub defaults: ManifestDefaults,
}

/// The value of the first entry whose key reads `key`, if any.
pub open spec fn spec_assoc<T>(entries: Seq<(String, T)>, key: Seq<char>) -> Option<T>
    decreases entries.len(),
{
    if entries.len() == 0 {
        None
    } else if entries[0].0@ == key {
        Some(entries[0].1)
    } else {
        spec_assoc(entries.drop_first(), key)
    }
}

proof fn lemma_assoc_found<T>(entries: Seq<(String, T)>, key: Seq<char>, i: int)
    requires
        0 <= i < entries.len(),
        entries[i].0@ == key,
        forall|k: int| 0 <= k < i ==> entries[k].0@ != key,
    ensures
        spec_assoc(entries, key) == Some(entries[i].1),
    decreases i,
{
    if i > 0 {
        lemma_assoc_found(entries.drop_first(), key, i - 1);
    }
}

proof fn lemma_assoc_missing<T>(entries: Seq<(String, T)>, key: Seq<char>)
    requires
        forall|k: int| 0 <= k < entries.len() ==> entries[k].0@ != key,
    ensures
        spec_assoc(entries, key) is None,
    decreases entries.len(),
{
    if entries.len() > 0 {
        lemma_assoc_missing(entries.drop_first(), key);
    }
}

/// Look up the first entry of `entries` whose key reads `key`.
fn assoc_get<'a, T>(entries: &'a Vec<(String, T)>, key: &str) -> (r: Option<&'a T>)
    ensures
        match r {
            Some(v) => spec_assoc(entries@, key@) == Some(*v),
            None => spec_assoc(entries@, key@) is None,
        },
{
    let n = entries.len();
    let mut i: usize = 0;
    while i < n
        invariant
            i <= n,
            n == entries@.len(),
            forall|k: int| 0 <= k < i ==> entries@[k].0@ != key@,
        decreases n - i,
    {
        if eq_str(entries[i].0.as_str(), key) {
            proof {
                lemma_assoc_found(entries@, key@, i as int);
            }
            return Some(&entries[i].1);
        }
        i += 1;
    }
    proof {
        lemma_assoc_missing(entries@, key@);
    }
    None
}

impl Manifest {
    /// Get a channel by name.
    pub fn get_channel<'a>(&'a self, name: &str) -> (r: Option<&'a Channel>)
        ensures
            match r {
                Some(c) => spec_assoc(self.channels@, name@) == Some(*c),
                None => spec_assoc(self.channels@, name@) is None,
            },
    {
        assoc_get(&self.channels, name)
    }

    /// Get the runtime artifact for a platform from a channel.
    pub fn get_jre_artifact<'a>(&'a self, channel: &str, platform: &Platform) -> (r: Option<
        &'a Artifact,
    >)
        ensures
            match spec_assoc(self.channels@, channel@) {
                None => r is None,
                Some(c) => match r {
                    Some(a) => spec_assoc(c.jre.platforms@, spec_manifest_key(*platform)) == Some(
                        *a,
                    ),
                    None => spec_assoc(c.jre.platforms@, spec_manifest_key(*platform)) is None,
                },
            },
    {
        match self.get_channel(channel) {
            None => None,
            Some(c) => {
                let key = platform.manifest_key();
                assoc_get(&c.jre.platforms, key.as_str())
            },
        }
    }

    /// Get a plugin from a channel.
    pub fn get_plugin<'a>(&'a self, channel: &str, name: &str) -> (r: Option<&'a ManifestPlugin>)
        ensures
            match spec_assoc(self.channels@, channel@) {
                None => r is None,
                Some(c) => match r {
                    Some(p) => spec_assoc(c.plugins@, name@) == Some(*p),
                    None => spec_assoc(c.plugins@, name@) is None,
                },
            },
    {
        match self.get_channel(channel) {
            None => None,
            Some(c) => assoc_get(&c.plugins, name),
        }
    }
}

/// The default application archive URL template, used when the manifest is
/// unavailable.
pub fn default_jar_url_template() -> (r: &'static str)
    ensures
        r@ == "https://github.com/karatelabs/karate/releases/download/v{version}/karate-{version}-all.jar"@,
{
    "https://github.com/karatelabs/karate/releases/download/v{version}/karate-{version}-all.jar"
}

/// The default runtime version named by the built-in manifest.
pub fn default_jre_version() -> (r: &'static str)
    ensures
        r@ == "17.0.12"@,
{
    "17.0.12"
}

/// Build an application archive URL by substituting every `{version}`
/// placeholder in the template.
pub fn build_jar_url(template: &str, version: &str) -> (r: String)
    ensures
        r@ == spec_replace(template@, "{version}"@, version@),
{
    proof {
        reveal_strlit("{version}");
    }
    replace_all(template, "{version}", version)
}

/// Create a minimal manifest for offline or first-run use: only a schema
/// version and defaults, no channels. Consumers treat the absence of
/// channel entries as "artifact unavailable".
pub fn create_default_manifest() -> (r: Manifest)
    ensures
        r.schema_version == 1,
        r.channels@.len() == 0,
        r.defaults.karate_jar_url_template matches Some(t) && t@
            == "https://github.com/karatelabs/karate/releases/download/v{version}/karate-{version}-all.jar"@,
        r.defaults.jre_version matches Some(v) && v@ == "17.0.12"@,
{
    Manifest {
        schema_version: 1,
        channels: Vec::new(),
        defaults: ManifestDefaults {
            karate_jar_url_template: Some(default_jar_url_template().to_owned()),
            jre_version: Some(default_jre_version().to_owned()),
        },
    }
}

/// Resolve which version of a channel's artifact should be installed: an
/// explicit override always wins; otherwise the channel's recorded latest
/// version is returned; a missing channel is a descriptive error.
pub fn resolve_version(manifest: &Manifest, channel: &str, requested: Option<&String>) -> (r:
    Result<String, KarateError>)
    ensures
        match requested {
            Some(v) => r matches Ok(out) && out@ == v@,
            None => match spec_assoc(manifest.channels@, channel@) {
                Some(c) => r matches Ok(out) && out@ == c.version@,
                None => r matches Err(e) && e is Other,
            },
        },
{
    match requested {
        Some(v) => Ok(v.clone()),
        None => match manifest.get_channel(channel) {
            Some(c) => Ok(c.version.clone()),
            None => Err(
                KarateError::Other(concat2("channel not found in manifest: ", channel)),
            ),
        },
    }
}

/// Resolve the runtime artifact for a channel and platform; absence of an
/// exact entry is a descriptive error naming the missing combination,
/// never a silent fallback.
pub fn resolve_jre_artifact(manifest: &Manifest, channel: &str, platform: &Platform) -> (r: Result<
    Artifact,
    KarateError,
>)
    ensures
        match spec_assoc(manifest.channels@, channel@) {
            None => r matches Err(e) && e is Other,
            Some(c) => match spec_assoc(c.jre.platforms@, spec_manifest_key(*platform)) {
                Some(a) => r matches Ok(out) && out == a,
                None => r matches Err(e) && e is Other,
            },
        },
{
    match self_get_jre(manifest, channel, platform) {
        Some(a) => Ok(a.clone()),
        None => {
            let key = platform.manifest_key();
            Err(
                KarateError::Other(
                    concat2(
                        concat2("no runtime artifact in manifest for channel ", channel).as_str(),
                        concat2(" and platform ", key.as_str()).as_str(),
                    ),
                ),
            )
        },
    }
}

/// `Manifest::get_jre_artifact`, freed of the borrow on the error path.
fn self_get_jre<'a>(manifest: &'a Manifest, channel: &str, platform: &Platform) -> (r: Option<
    &'a Artifact,
>)
    ensures
        match spec_assoc(manifest.channels@, channel@) {
            None => r is None,
            Some(c) => match r {
                Some(a) => spec_assoc(c.jre.platforms@, spec_manifest_key(*platform)) == Some(*a),
                None => spec_assoc(c.jre.platforms@, spec_manifest_key(*platform)) is None,
            },
        },
{
    manifest.get_jre_artifact(channel, platform)
}

} // verus!
