//! Platform identity: canonical operating-system / architecture keys and
//! the engine's on-disk directory layout.

use vstd::prelude::*;

use crate::error::KarateError;
use crate::text::concat3;
use crate::text::eq_str;

verus! {

/// Detected platform information.
#[derive(Debug, Clone)]
pub struct Platform {
    pub os: Os,
    pub arch: Arch,
}

#[derive(Debug, Clone, Copy, PartialEq, Eq, Structural)]
pub enum Os {
    MacOS,
    Linux,
    Windows,
}

#[derive(Debug, Clone, Copy, PartialEq, Eq, Structural)]
pub enum Arch {
    X64,
    Aarch64,
}

/// The canonical label for each operating system.
pub open spec fn spec_os_label(os: Os) -> Seq<char> {
    match os {
        Os::MacOS => "macos"@,
        Os::Linux => "linux"@,
        Os::Windows => "windows"@,
    }
}

/// The canonical label for each architecture.
pub open spec fn spec_arch_label(arch: Arch) -> Seq<char> {
    match arch {
        Arch::X64 => "x64"@,
        Arch::Aarch64 => "aarch64"@,
    }
}

/// Which operating system a name (as the process reports it) denotes.
pub open spec fn spec_parse_os(name: Seq<char>) -> Option<Os> {
    if name == "macos"@ {
        Some(Os::MacOS)
    } else if name == "linux"@ {
        Some(Os::Linux)
    } else if name == "windows"@ {
        Some(Os::Windows)
    } else {
        None
    }
}

/// Which architecture a name (as the process reports it) denotes.
pub open spec fn spec_parse_arch(name: Seq<char>) -> Option<Arch> {
    if name == "x86_64"@ {
        Some(Arch::X64)
    } else if name == "aarch64"@ {
        Some(Arch::Aarch64)
    } else {
        None
    }
}

/// The canonical `<os>-<arch>` key of a platform.
pub open spec fn spec_manifest_key(p: Platform) -> Seq<char> {
    spec_os_label(p.os) + "-"@ + spec_arch_label(p.arch)
}

impl Platform {
    /// Resolve the running platform from the operating-system and
    /// architecture names the process reports; any pair outside the
    /// supported set is rejected as `UnsupportedPlatform`.
    pub fn detect(os_name: &str, arch_name: &str) -> (r: Result<Platform, KarateError>)
        ensures
            match r {
                Ok(p) => spec_parse_os(os_name@) == Some(p.os) && spec_parse_arch(arch_name@)
                    == Some(p.arch),
                Err(e) => (spec_parse_os(os_name@) is None || spec_parse_arch(arch_name@)
                    is None) && match e {
                    KarateError::UnsupportedPlatform { os, arch } => os@ == os_name@ && arch@
                        == arch_name@,
                    _ => false,
                },
            },
    {
        let os = if eq_str(os_name, "macos") {
            Some(Os::MacOS)
        } else if eq_str(os_name, "linux") {
            Some(Os::Linux)
        } else if eq_str(os_name, "windows") {
            Some(Os::Windows)
        } else {
            None
        };
        let arch = if eq_str(arch_name, "x86_64") {
            Some(Arch::X64)
        } else if eq_str(arch_name, "aarch64") {
            Some(Arch::Aarch64)
        } else {
            None
        };
        match (os, arch) {
            (Some(os), Some(arch)) => Ok(Platform { os, arch }),
            _ => Err(
                KarateError::UnsupportedPlatform {
                    os: os_name.to_owned(),
                    arch: arch_name.to_owned(),
                },
            ),
        }
    }

    /// The platform string used in manifest lookups (e.g. `macos-aarch64`).
    pub fn manifest_key(&self) -> (r: String)
        ensures
            r@ == spec_manifest_key(*self),
    {
        let os = match self.os {
            Os::MacOS => "macos",
            Os::Linux => "linux",
            Os::Windows => "windows",
        };
        let arch = match self.arch {
            Arch::X64 => "x64",
            Arch::Aarch64 => "aarch64",
        };
        concat3(os, "-", arch)
    }

    /// The runtime directory name `<version>-<platform key>`.
    pub fn jre_dir_name(&self, version: &str) -> (r: String)
        ensures
            r@ == version@ + "-"@ + spec_manifest_key(*self),
    {
        let key = self.manifest_key();
        let r = concat3(version, "-", key.as_str());
        proof {
            assert(version@ + "-"@ + spec_manifest_key(*self) =~= r@);
        }
        r
    }
}

impl Os {
    /// The name of the runtime executable on this operating system.
    pub fn java_executable(&self) -> (r: &'static str)
        ensures
            r@ == spec_java_executable(*self),
    {
        match self {
            Os::Windows => "java.exe",
            _ => "java",
        }
    }
}

/// The runtime executable's file name for each operating system.
pub open spec fn spec_java_executable(os: Os) -> Seq<char> {
    match os {
        Os::Windows => "java.exe"@,
        _ => "java"@,
    }
}

/// `dir`/`name` as a single path string.
pub open spec fn spec_join(dir: Seq<char>, name: Seq<char>) -> Seq<char> {
    dir + "/"@ + name
}

/// Join a directory and an entry name with the path separator.
pub fn join_path(dir: &str, name: &str) -> (r: String)
    ensures
        r@ == spec_join(dir@, name@),
{
    concat3(dir, "/", name)
}

/// Paths to the engine's directories.
///
/// Uses a two-level resolution: a project-local override directory can
/// supply individual subdirectories (dist, jre, ext), falling back to the
/// global home for anything not present locally.
pub struct KaratePaths {
    /// The global home directory.
    pub home: String,
    /// Local override directory, if it exists.
    pub local: Option<String>,
    /// Resolved dist directory (local override or global).
    pub dist: String,
    /// Resolved jre directory (local override or global).
    pub jre: String,
    /// Resolved ext directory (local override or global).
    pub ext: String,
    /// Whether the local override directory has its own ext entry.
    pub local_has_ext: bool,
    /// Cache directory (always global).
    pub cache: String,
    /// Global config file.
    pub global_config: String,
}

/// The directory that a subdirectory resolves to: the local override when it
/// exists there, the global home's entry otherwise.
pub open spec fn spec_resolved_dir(
    home: Seq<char>,
    local: Option<String>,
    has_local: bool,
    name: Seq<char>,
) -> Seq<char> {
    match local {
        Some(l) => if has_local {
            spec_join(l@, name)
        } else {
            spec_join(home, name)
        },
        None => spec_join(home, name),
    }
}

impl KaratePaths {
    /// Lay out the engine's directories from the global home, the local
    /// override directory (when present), and which subdirectories that
    /// local directory provides.
    pub fn new(
        home: String,
        local: Option<String>,
        local_has_dist: bool,
        local_has_jre: bool,
        local_has_ext: bool,
    ) -> (r: KaratePaths)
        ensures
            r.home == home,
            r.local == local,
            r.dist@ == spec_resolved_dir(home@, local, local_has_dist, "dist"@),
            r.jre@ == spec_resolved_dir(home@, local, local_has_jre, "jre"@),
            r.ext@ == spec_resolved_dir(home@, local, local_has_ext, "ext"@),
            r.local_has_ext == (local is Some && local_has_ext),
            r.cache@ == spec_join(home@, "cache"@),
            r.global_config@ == spec_join(home@, "karate-cli.json"@),
    {
        let dist = Self::resolve_dir(&home, &local, local_has_dist, "dist");
        let jre = Self::resolve_dir(&home, &local, local_has_jre, "jre");
        let ext = Self::resolve_dir(&home, &local, local_has_ext, "ext");
        let cache = join_path(home.as_str(), "cache");
        let global_config = join_path(home.as_str(), "karate-cli.json");
        let has_ext_override = match &local {
            Some(_) => local_has_ext,
            None => false,
        };
        KaratePaths {
            home,
            local,
            dist,
            jre,
            ext,
            local_has_ext: has_ext_override,
            cache,
            global_config,
        }
    }

    /// Resolve one subdirectory with local-override fallback to global.
    fn resolve_dir(home: &String, local: &Option<String>, has_local: bool, name: &str) -> (r:
        String)
        ensures
            r@ == spec_resolved_dir(home@, *local, has_local, name@),
    {
        match local {
            Some(l) => if has_local {
                join_path(l.as_str(), name)
            } else {
                join_path(home.as_str(), name)
            },
            None => join_path(home.as_str(), name),
        }
    }

    /// Whether any local override directory is in effect.
    pub fn has_local_overrides(&self) -> (r: bool)
        ensures
            r == (self.local is Some),
    {
        match &self.local {
            Some(_) => true,
            None => false,
        }
    }

    /// All ext directories to consult: the global one, then the local
    /// override's when it exists. Extensions are composable: entries from
    /// every returned directory are loaded.
    pub fn all_ext_dirs(&self) -> (r: Vec<String>)
        ensures
            r@.len() >= 1,
            r@[0]@ == spec_join(self.home@, "ext"@),
            self.local_has_ext && self.local is Some ==> r@.len() == 2 && r@[1]@ == spec_join(
                self.local->0@,
                "ext"@,
            ),
            !(self.local_has_ext && self.local is Some) ==> r@.len() == 1,
    {
        let mut dirs: Vec<String> = Vec::new();
        dirs.push(join_path(self.home.as_str(), "ext"));
        if self.local_has_ext {
            match &self.local {
                Some(l) => {
                    dirs.push(join_path(l.as_str(), "ext"));
                },
                None => {},
            }
        }
        dirs
    }
}

} // verus!
