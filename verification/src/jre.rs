//! Runtime discovery: parsing version output and managed directory names,
//! and selecting the active runtime under a fixed precedence order.

use vstd::prelude::*;

use crate::text::eq_str;
use crate::text::index_of_char;
use crate::text::parse_u8_dec;
use crate::text::spec_parse_u8;
use crate::text::str_chars_len;
use crate::text::substring_copy;

verus! {

/// Minimum Java major version required by current application releases.
pub const MIN_JAVA_VERSION: u8 = 21;

/// Source of a runtime installation (for diagnostics and precedence).
#[derive(Debug, Clone, Copy, PartialEq, Eq, Structural)]
pub enum JreSource {
    /// A runtime installed and owned by this engine.
    Managed,
    /// A system runtime named by the environment-declared root.
    JavaHome,
    /// A system runtime found on the process's search path.
    Path,
}

/// The diagnostic label of each runtime source.
pub open spec fn spec_source_label(s: JreSource) -> Seq<char> {
    match s {
        JreSource::Managed => "managed"@,
        JreSource::JavaHome => "JAVA_HOME"@,
        JreSource::Path => "PATH"@,
    }
}

impl JreSource {
    /// The label shown for this source in diagnostics.
    pub fn label(&self) -> (r: &'static str)
        ensures
            r@ == spec_source_label(*self),
    {
        match self {
            JreSource::Managed => "managed",
            JreSource::JavaHome => "JAVA_HOME",
            JreSource::Path => "PATH",
        }
    }
}

/// Information about an installed runtime.
#[derive(Debug)]
pub struct InstalledJre {
    pub version: String,
    pub platform: String,
    pub path: String,
    pub java_executable: String,
    pub source: JreSource,
    /// Major version (e.g. 21 for 21.0.9), when it could be parsed.
    pub major_version: Option<u8>,
}

impl Clone for InstalledJre {
    fn clone(&self) -> (r: Self)
        ensures
            r == *self,
    {
        InstalledJre {
            version: self.version.clone(),
            platform: self.platform.clone(),
            path: self.path.clone(),
            java_executable: self.java_executable.clone(),
            source: self.source,
            major_version: match self.major_version {
                Some(v) => Some(v),
                None => None,
            },
        }
    }
}

/// What probing a candidate installation on disk observed: whether the
/// recorded executable exists, and the first line of the version query's
/// diagnostic output when the executable could be launched and queried.
#[derive(Debug, Clone)]
pub struct JreProbe {
    pub exe_exists: bool,
    pub version_line: Option<String>,
}

impl InstalledJre {
    /// Whether this runtime is valid and working, judged from what a probe
    /// of it observed: its executable exists and answered a version query.
    pub fn is_valid(&self, probe: &JreProbe) -> (r: bool)
        ensures
            r == (probe.exe_exists && probe.version_line is Some),
    {
        probe.exe_exists && match &probe.version_line {
            Some(_) => true,
            None => false,
        }
    }

    /// Whether this runtime meets the minimum major-version floor.
    pub fn meets_minimum_version(&self) -> (r: bool)
        ensures
            r == (self.major_version is Some && self.major_version->0 >= MIN_JAVA_VERSION),
    {
        match self.major_version {
            Some(v) => v >= MIN_JAVA_VERSION,
            None => false,
        }
    }
}

/// The position of the first `c` at or after `from` in `s`, or -1 if none.
pub open spec fn spec_index_of_char(s: Seq<char>, c: char, from: int) -> int
    decreases s.len() - from when 0 <= from <= s.len()
{
    if from < 0 || from >= s.len() {
        -1
    } else if s[from] == c {
        from
    } else {
        spec_index_of_char(s, c, from + 1)
    }
}

proof fn lemma_index_found(s: Seq<char>, c: char, from: int, j: int)
    requires
        0 <= from <= j < s.len(),
        s[j] == c,
        forall|k: int| from <= k < j ==> s[k] != c,
    ensures
        spec_index_of_char(s, c, from) == j,
    decreases j - from,
{
    if from < j {
        lemma_index_found(s, c, from + 1, j);
    }
}

proof fn lemma_index_missing(s: Seq<char>, c: char, from: int)
    requires
        0 <= from <= s.len(),
        forall|k: int| from <= k < s.len() ==> s[k] != c,
    ensures
        spec_index_of_char(s, c, from) == -1,
    decreases s.len() - from,
{
    if from < s.len() {
        lemma_index_missing(s, c, from + 1);
    }
}

/// Find the first `c` at or after `from`, tied to `spec_index_of_char`.
pub(crate) fn find_char(s: &str, c: char, from: usize) -> (r: Option<usize>)
    requires
        from <= s@.len(),
    ensures
        match r {
            Some(j) => from <= j < s@.len() && spec_index_of_char(s@, c, from as int) == j,
            None => spec_index_of_char(s@, c, from as int) == -1,
        },
{
    let r = index_of_char(s, c, from);
    proof {
        match r {
            Some(j) => lemma_index_found(s@, c, from as int, j as int),
            None => lemma_index_missing(s@, c, from as int),
        }
    }
    r
}

/// The slice of `s` from `from` up to the next `.`, or to the end if no `.`
/// follows.
pub open spec fn spec_dot_part(s: Seq<char>, from: int) -> Seq<char> {
    let i = spec_index_of_char(s, '.', from);
    if i == -1 {
        s.subrange(from, s.len() as int)
    } else {
        s.subrange(from, i)
    }
}

/// The major version denoted by a version string: the value of the part
/// before the first `.`, except that the legacy form `1.x...` denotes `x`.
/// A string without a parseable leading numeral denotes no major version.
pub open spec fn spec_parse_major(s: Seq<char>) -> Option<u8> {
    match spec_parse_u8(spec_dot_part(s, 0)) {
        None => None,
        Some(m) => if m == 1 {
            let i = spec_index_of_char(s, '.', 0);
            if i == -1 {
                None
            } else {
                spec_parse_u8(spec_dot_part(s, i + 1))
            }
        } else {
            Some(m)
        },
    }
}

/// Parse the major version from a version string: `21.0.9` gives 21, the
/// legacy form `1.8.0_301` gives 8, anything without a parseable leading
/// numeral gives nothing.
pub fn parse_major_version(version: &str) -> (r: Option<u8>)
    ensures
        r == spec_parse_major(version@),
{
    let n = str_chars_len(version);
    let first_end = match find_char(version, '.', 0) {
        Some(i) => i,
        None => n,
    };
    let first = substring_copy(version, 0, first_end);
    proof {
        assert(first@ == spec_dot_part(version@, 0));
    }
    match parse_u8_dec(first.as_str()) {
        None => None,
        Some(m) => {
            if m == 1 {
                if first_end == n {
                    // no dot at all: the legacy form has no second part
                    return None;
                }
                let from = first_end + 1;
                let second_end = match find_char(version, '.', from) {
                    Some(j) => j,
                    None => n,
                };
                let second = substring_copy(version, from, second_end);
                proof {
                    assert(second@ == spec_dot_part(version@, from as int));
                }
                parse_u8_dec(second.as_str())
            } else {
                Some(m)
            }
        },
    }
}

/// The text between the first pair of double quotes in `line`, if the line
/// holds two of them.
pub open spec fn spec_quoted_version(line: Seq<char>) -> Option<Seq<char>> {
    let a = spec_index_of_char(line, '"', 0);
    if a == -1 {
        None
    } else {
        let b = spec_index_of_char(line, '"', a + 1);
        if b == -1 {
            None
        } else {
            Some(line.subrange(a + 1, b))
        }
    }
}

/// Extract the double-quoted version token from the first line of a
/// version query's diagnostic output.
pub fn extract_version_from_line(line: &str) -> (r: Option<String>)
    ensures
        match r {
            Some(v) => spec_quoted_version(line@) == Some(v@),
            None => spec_quoted_version(line@) is None,
        },
{
    let n = str_chars_len(line);
    let a = match find_char(line, '"', 0) {
        Some(i) => i,
        None => {
            return None;
        },
    };
    proof {
        assert(a < n);
    }
    let b = match find_char(line, '"', a + 1) {
        Some(j) => j,
        None => {
            return None;
        },
    };
    Some(substring_copy(line, a + 1, b))
}

/// The canonical platform key that a vendor's platform label denotes.
pub open spec fn spec_normalize_platform(s: Seq<char>) -> Seq<char> {
    if s == "macosx-aarch64"@ {
        "macos-aarch64"@
    } else if s == "macosx-x86_64"@ {
        "macos-x64"@
    } else if s == "linux-x86_64"@ {
        "linux-x64"@
    } else if s == "linux-aarch64"@ {
        "linux-aarch64"@
    } else if s == "win32-x86_64"@ {
        "windows-x64"@
    } else {
        s
    }
}

/// Normalize a vendor platform label to the canonical platform-key
/// vocabulary; unknown labels pass through unchanged.
pub fn normalize_platform(justj_platform: &str) -> (r: String)
    ensures
        r@ == spec_normalize_platform(justj_platform@),
{
    if eq_str(justj_platform, "macosx-aarch64") {
        "macos-aarch64".to_owned()
    } else if eq_str(justj_platform, "macosx-x86_64") {
        "macos-x64".to_owned()
    } else if eq_str(justj_platform, "linux-x86_64") {
        "linux-x64".to_owned()
    } else if eq_str(justj_platform, "linux-aarch64") {
        "linux-aarch64".to_owned()
    } else if eq_str(justj_platform, "win32-x86_64") {
        "windows-x64".to_owned()
    } else {
        justj_platform.to_owned()
    }
}

/// What a managed runtime directory name denotes: the version before the
/// first `-`, and the canonical form of the platform label after it.
pub open spec fn spec_parse_jre_dir(name: Seq<char>) -> Option<(Seq<char>, Seq<char>)> {
    let i = spec_index_of_char(name, '-', 0);
    if i == -1 {
        None
    } else {
        Some(
            (name.subrange(0, i), spec_normalize_platform(name.subrange(i + 1, name.len() as int))),
        )
    }
}

/// Parse a managed runtime directory name `<version>-<platform label>`
/// into the version and the canonical platform key.
pub fn parse_jre_dir_name(name: &str) -> (r: Option<(String, String)>)
    ensures
        match r {
            Some(p) => spec_parse_jre_dir(name@) == Some((p.0@, p.1@)),
            None => spec_parse_jre_dir(name@) is None,
        },
{
    let n = str_chars_len(name);
    match find_char(name, '-', 0) {
        None => None,
        Some(i) => {
            let version = substring_copy(name, 0, i);
            let label = substring_copy(name, i + 1, n);
            let platform = normalize_platform(label.as_str());
            Some((version, platform))
        },
    }
}

/// The managed runtime directory name for a version and platform key.
pub fn jre_dir_name(version: &str, platform: &crate::platform::Platform) -> (r: String)
    ensures
        r@ == version@ + "-"@ + crate::platform::spec_manifest_key(*platform),
{
    platform.jre_dir_name(version)
}

/// Build the managed-runtime record for one entry of the managed runtime
/// root, once the runtime executable has been located inside it: the
/// directory name supplies the version and canonical platform, and the
/// major version is parsed from the version. An entry whose name does not
/// parse is excluded, not an error.
pub fn managed_jre_entry(dir_name: &str, dir_path: String, java_executable: String) -> (r: Option<
    InstalledJre,
>)
    ensures
        match spec_parse_jre_dir(dir_name@) {
            Some(p) => r matches Some(j) && j.version@ == p.0 && j.platform@ == p.1 && j.path
                == dir_path && j.java_executable == java_executable && j.source
                == JreSource::Managed && j.major_version == spec_parse_major(p.0),
            None => r is None,
        },
{
    match parse_jre_dir_name(dir_name) {
        None => None,
        Some((version, platform)) => {
            let major_version = parse_major_version(version.as_str());
            Some(
                InstalledJre {
                    version,
                    platform,
                    path: dir_path,
                    java_executable,
                    source: JreSource::Managed,
                    major_version,
                },
            )
        },
    }
}

/// A managed installation together with what probing it observed.
#[derive(Debug, Clone)]
pub struct JreCandidate {
    pub jre: InstalledJre,
    pub probe: JreProbe,
}

/// A managed candidate usable for the given platform key: its recorded
/// platform matches and its probe succeeded.
pub open spec fn spec_managed_ok(c: JreCandidate, key: Seq<char>) -> bool {
    &&& c.jre.platform@ == key
    &&& c.probe.exe_exists
    &&& c.probe.version_line is Some
}

/// A system runtime meets the version floor.
pub open spec fn spec_meets_minimum(j: InstalledJre) -> bool {
    j.major_version is Some && j.major_version->0 >= MIN_JAVA_VERSION
}

/// Select the system runtime: the environment-declared one wins over the
/// one found on the search path.
pub fn find_system_jre(java_home: Option<InstalledJre>, path_jre: Option<InstalledJre>) -> (r:
    Option<InstalledJre>)
    ensures
        r == if java_home is Some {
            java_home
        } else {
            path_jre
        },
{
    match java_home {
        Some(j) => Some(j),
        None => path_jre,
    }
}

/// What `find_active_jre` returns: the first managed candidate usable for
/// the platform key; failing that, the system runtime when it meets the
/// version floor; failing that, nothing.
pub open spec fn spec_active_jre(
    managed: Seq<JreCandidate>,
    system: Option<InstalledJre>,
    key: Seq<char>,
    r: Option<InstalledJre>,
) -> bool {
    match r {
        Some(j) => {
            ||| exists|i: int|
                0 <= i < managed.len() && #[trigger] spec_managed_ok(managed[i], key) && j
                    == managed[i].jre && (forall|k: int|
                    0 <= k < i ==> !spec_managed_ok(managed[k], key))
            ||| (forall|k: int| 0 <= k < managed.len() ==> !spec_managed_ok(managed[k], key))
                && system == Some(j) && spec_meets_minimum(j)
        },
        None => (forall|k: int| 0 <= k < managed.len() ==> !spec_managed_ok(managed[k], key)) && (
        system is Some ==> !spec_meets_minimum(system->0)),
    }
}

/// Law (managed runtimes take precedence): whenever any managed candidate
/// is usable for the current platform, the selected runtime is a managed
/// one — never the environment-declared or search-path runtime, however
/// valid those are.
pub proof fn lemma_managed_wins(
    managed: Seq<JreCandidate>,
    system: Option<InstalledJre>,
    key: Seq<char>,
    r: Option<InstalledJre>,
)
    requires
        spec_active_jre(managed, system, key, r),
        exists|i: int| 0 <= i < managed.len() && #[trigger] spec_managed_ok(managed[i], key),
    ensures
        r matches Some(j) && exists|i: int|
            0 <= i < managed.len() && #[trigger] spec_managed_ok(managed[i], key) && j
                == managed[i].jre,
{
    let i = choose|i: int| 0 <= i < managed.len() && #[trigger] spec_managed_ok(managed[i], key);
    assert(spec_managed_ok(managed[i], key));
    match r {
        None => {
            assert(!spec_managed_ok(managed[i], key));
        },
        Some(j) => {
            if forall|k: int| 0 <= k < managed.len() ==> !spec_managed_ok(
                #[trigger] managed[k],
                key,
            ) {
                assert(!spec_managed_ok(managed[i], key));
            }
        },
    }
}

/// Select the active runtime under strict precedence: the first managed
/// candidate whose platform matches the key and whose probe succeeded; then
/// the system runtime, provided it meets the minimum version floor.
pub fn find_active_jre(
    managed: &Vec<JreCandidate>,
    system: Option<InstalledJre>,
    platform_key: &str,
) -> (r: Option<InstalledJre>)
    ensures
        spec_active_jre(managed@, system, platform_key@, r),
{
    let n = managed.len();
    let mut i: usize = 0;
    while i < n
        invariant
            i <= n,
            n == managed@.len(),
            forall|k: int| 0 <= k < i ==> !spec_managed_ok(managed@[k], platform_key@),
        decreases n - i,
    {
        let c = &managed[i];
        if eq_str(c.jre.platform.as_str(), platform_key) && c.jre.is_valid(&c.probe) {
            proof {
                assert(spec_managed_ok(managed@[i as int], platform_key@));
            }
            return Some(c.jre.clone());
        }
        i += 1;
    }
    match system {
        Some(j) => {
            if j.meets_minimum_version() {
                Some(j)
            } else {
                None
            }
        },
        None => None,
    }
}

} // verus!
