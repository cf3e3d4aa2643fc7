//! Install planning: which components an invocation works on, whether a
//! component is outdated, and which downloads an install run performs.

use vstd::prelude::*;

use crate::text::eq_ignore_ascii_case;
use crate::text::spec_contains;
use crate::text::spec_ends_with;
use crate::text::spec_eq_ignore_ascii_case;
use crate::text::spec_starts_with;
use crate::text::spec_str_le;
use crate::text::lemma_str_le_refl;
use crate::text::lemma_str_le_total;
use crate::text::lemma_str_le_trans;
use crate::text::contains_sub;
use crate::text::ends_with;
use crate::text::starts_with;
use crate::text::str_chars_len;
use crate::text::str_le;
use crate::text::substring_copy;
use crate::jre::spec_index_of_char;

verus! {

/// The set of installable components.
#[derive(Debug, Clone, Copy, PartialEq, Eq, Structural)]
pub struct ComponentSet {
    pub jar: bool,
    pub jre: bool,
}

/// `s` names the application archive component (ASCII-case-insensitively).
pub open spec fn spec_names_jar(s: Seq<char>) -> bool {
    spec_eq_ignore_ascii_case(s, "jar"@)
}

/// `s` names the runtime component (ASCII-case-insensitively).
pub open spec fn spec_names_jre(s: Seq<char>) -> bool {
    spec_eq_ignore_ascii_case(s, "jre"@)
}

/// `s` names a known component.
pub open spec fn spec_valid_component(s: Seq<char>) -> bool {
    spec_names_jar(s) || spec_names_jre(s)
}

/// No name denotes both components.
proof fn lemma_component_names_distinct(s: Seq<char>)
    ensures
        !(spec_names_jar(s) && spec_names_jre(s)),
{
    reveal_strlit("jar");
    reveal_strlit("jre");
    if spec_names_jar(s) && spec_names_jre(s) {
        assert(crate::text::spec_fold_ascii(s[1]) == crate::text::spec_fold_ascii("jar"@[1]));
        assert(crate::text::spec_fold_ascii(s[1]) == crate::text::spec_fold_ascii("jre"@[1]));
        assert(false);
    }
}

/// Validate a list of requested component names; the first unknown name is
/// handed back as the error.
pub fn validate_components(comps: &Vec<String>) -> (r: Result<ComponentSet, String>)
    ensures
        match r {
            Ok(set) => {
                &&& forall|k: int|
                    0 <= k < comps@.len() ==> spec_valid_component(#[trigger] comps@[k]@)
                &&& set.jar == exists|k: int|
                    0 <= k < comps@.len() && spec_names_jar(#[trigger] comps@[k]@)
                &&& set.jre == exists|k: int|
                    0 <= k < comps@.len() && spec_names_jre(#[trigger] comps@[k]@)
            },
            Err(name) => exists|i: int|
                0 <= i < comps@.len() && !spec_valid_component(#[trigger] comps@[i]@) && name@
                    == comps@[i]@ && (forall|k: int|
                    0 <= k < i ==> spec_valid_component(comps@[k]@)),
        },
{
    proof {
        reveal_strlit("jar");
        reveal_strlit("jre");
    }
    let n = comps.len();
    let mut jar = false;
    let mut jre = false;
    let mut i: usize = 0;
    while i < n
        invariant
            i <= n,
            n == comps@.len(),
            forall|k: int| 0 <= k < i ==> spec_valid_component(#[trigger] comps@[k]@),
            jar == exists|k: int| 0 <= k < i && spec_names_jar(#[trigger] comps@[k]@),
            jre == exists|k: int| 0 <= k < i && spec_names_jre(#[trigger] comps@[k]@),
        decreases n - i,
    {
        let c = &comps[i];
        proof {
            lemma_component_names_distinct(c@);
        }
        if eq_ignore_ascii_case(c.as_str(), "jar") {
            jar = true;
        } else if eq_ignore_ascii_case(c.as_str(), "jre") {
            jre = true;
        } else {
            return Err(c.clone());
        }
        i += 1;
    }
    Ok(ComponentSet { jar, jre })
}

/// The components an update invocation works on: everything under `--all`
/// or with no item named; a single named item otherwise, whose name must
/// be known and is handed back as the error when it is not.
pub fn select_update_items(all: bool, item: Option<&String>) -> (r: Result<ComponentSet, String>)
    ensures
        match r {
            Ok(set) => match item {
                None => set == (ComponentSet { jar: true, jre: true }),
                Some(it) => if all {
                    set == (ComponentSet { jar: true, jre: true })
                } else {
                    &&& spec_valid_component(it@)
                    &&& set.jar == spec_names_jar(it@)
                    &&& set.jre == spec_names_jre(it@)
                },
            },
            Err(name) => match item {
                Some(it) => !all && !spec_valid_component(it@) && name@ == it@,
                None => false,
            },
        },
{
    proof {
        reveal_strlit("jar");
        reveal_strlit("jre");
    }
    if all {
        return Ok(ComponentSet { jar: true, jre: true });
    }
    match item {
        None => Ok(ComponentSet { jar: true, jre: true }),
        Some(it) => {
            proof {
                lemma_component_names_distinct(it@);
            }
            if eq_ignore_ascii_case(it.as_str(), "jar") {
                Ok(ComponentSet { jar: true, jre: false })
            } else if eq_ignore_ascii_case(it.as_str(), "jre") {
                Ok(ComponentSet { jar: false, jre: true })
            } else {
                Err(it.clone())
            }
        },
    }
}

/// Info about an installed component and its update status.
#[derive(Debug, Clone)]
pub struct ComponentStatus {
    pub installed_version: Option<String>,
    pub latest_version: String,
    pub has_update: bool,
}

/// An update is due when nothing is installed or the installed version
/// differs from the latest.
pub fn jar_component_status(installed: Option<String>, latest: String) -> (r: ComponentStatus)
    ensures
        r.installed_version == installed,
        r.latest_version == latest,
        r.has_update == match installed {
            None => true,
            Some(v) => v@ != latest@,
        },
{
    let has_update = match &installed {
        None => true,
        Some(v) => !crate::text::eq_str(v.as_str(), latest.as_str()),
    };
    ComponentStatus { installed_version: installed, latest_version: latest, has_update }
}

/// The part of `s` before its first `-`, or all of it.
pub open spec fn spec_version_part(s: Seq<char>) -> Seq<char> {
    let i = spec_index_of_char(s, '-', 0);
    if i == -1 {
        s
    } else {
        s.subrange(0, i)
    }
}

/// The version part of a `<version>-<platform>` label: everything before
/// the first dash.
pub fn version_part(s: &str) -> (r: String)
    ensures
        r@ == spec_version_part(s@),
{
    let n = str_chars_len(s);
    match crate::jre::find_char(s, '-', 0) {
        Some(i) => substring_copy(s, 0, i),
        None => {
            let r = substring_copy(s, 0, n);
            proof {
                assert(r@ =~= s@);
            }
            r
        },
    }
}

/// Update status for the runtime: versions are compared by the version
/// part of their labels, so `21.0.9-macosx-aarch64` and `21.0.9` agree.
pub fn jre_component_status(installed: Option<String>, latest: String) -> (r: ComponentStatus)
    ensures
        r.installed_version == installed,
        r.latest_version == latest,
        r.has_update == match installed {
            None => true,
            Some(v) => spec_version_part(v@) != latest@,
        },
{
    let has_update = match &installed {
        None => true,
        Some(v) => {
            let part = version_part(v.as_str());
            !crate::text::eq_str(part.as_str(), latest.as_str())
        },
    };
    ComponentStatus { installed_version: installed, latest_version: latest, has_update }
}

/// A file name denotes the application archive: `karate-<...>.jar`, not a
/// robot variant.
pub open spec fn spec_is_karate_jar_name(n: Seq<char>) -> bool {
    &&& spec_starts_with(n, "karate-"@)
    &&& spec_ends_with(n, ".jar"@)
    &&& !spec_contains(n, "robot"@)
}

/// Whether a file name denotes the application archive.
pub fn is_karate_jar_name(name: &str) -> (r: bool)
    ensures
        r == spec_is_karate_jar_name(name@),
{
    proof {
        reveal_strlit("karate-");
        reveal_strlit(".jar");
    }
    starts_with(name, "karate-") && ends_with(name, ".jar") && !contains_sub(name, "robot")
}

/// The version encoded in an application archive file name
/// `karate-<version>.jar`, when the name has that shape.
pub fn jar_version_from_name(name: &str) -> (r: Option<String>)
    ensures
        match r {
            Some(v) => spec_is_karate_jar_name(name@) && name@.len() >= 11 && v@ == name@.subrange(
                7,
                name@.len() - 4,
            ),
            None => !spec_is_karate_jar_name(name@) || name@.len() < 11,
        },
{
    proof {
        reveal_strlit("karate-");
        reveal_strlit(".jar");
    }
    let n = str_chars_len(name);
    if n >= 11 && is_karate_jar_name(name) {
        Some(substring_copy(name, 7, n - 4))
    } else {
        None
    }
}

/// The lexicographically greatest application-archive name in `names`:
/// the latest version when names embed versions, as `karate-<version>.jar`
/// names do.
pub fn select_latest_jar(names: &Vec<String>) -> (r: Option<String>)
    ensures
        match r {
            Some(m) => {
                &&& spec_is_karate_jar_name(m@)
                &&& exists|i: int| 0 <= i < names@.len() && names@[i]@ == m@
                &&& forall|j: int|
                    0 <= j < names@.len() && spec_is_karate_jar_name(#[trigger] names@[j]@)
                        ==> spec_str_le(names@[j]@, m@)
            },
            None => forall|j: int|
                0 <= j < names@.len() ==> !spec_is_karate_jar_name(#[trigger] names@[j]@),
        },
{
    let n = names.len();
    let mut best: Option<String> = None;
    let mut i: usize = 0;
    while i < n
        invariant
            i <= n,
            n == names@.len(),
            match best {
                Some(m) => {
                    &&& spec_is_karate_jar_name(m@)
                    &&& exists|k: int| 0 <= k < i && names@[k]@ == m@
                    &&& forall|j: int|
                        0 <= j < i && spec_is_karate_jar_name(#[trigger] names@[j]@)
                            ==> spec_str_le(names@[j]@, m@)
                },
                None => forall|j: int|
                    0 <= j < i ==> !spec_is_karate_jar_name(#[trigger] names@[j]@),
            },
        decreases n - i,
    {
        let name = &names[i];
        if is_karate_jar_name(name.as_str()) {
            proof {
                lemma_str_le_refl(name@);
            }
            match &best {
                None => {
                    best = Some(name.clone());
                },
                Some(m) => {
                    if str_le(m.as_str(), name.as_str()) {
                        let ghost m_old = m@;
                        proof {
                            assert forall|j: int|
                                0 <= j < i && spec_is_karate_jar_name(
                                    #[trigger] names@[j]@,
                                ) implies spec_str_le(names@[j]@, name@) by {
                                lemma_str_le_trans(names@[j]@, m_old, name@);
                            }
                        }
                        best = Some(name.clone());
                    } else {
                        proof {
                            lemma_str_le_total(m@, name@);
                        }
                    }
                },
            }
        }
        i += 1;
    }
    best
}

/// What an install run will download.
#[derive(Debug, Clone, Copy, PartialEq, Eq, Structural)]
pub struct SetupPlan {
    pub download_jre: bool,
    pub download_jar: bool,
}

/// The downloads an install run performs: a requested component is
/// downloaded when forced or not yet present.
pub open spec fn spec_plan_setup(
    components: ComponentSet,
    force: bool,
    jre_available: bool,
    jar_installed: bool,
) -> SetupPlan {
    SetupPlan {
        download_jre: components.jre && (force || !jre_available),
        download_jar: components.jar && (force || !jar_installed),
    }
}

/// Plan an install run: a requested component is downloaded only when
/// forced or not yet present; everything already present is left alone.
pub fn plan_setup(
    components: ComponentSet,
    force: bool,
    jre_available: bool,
    jar_installed: bool,
) -> (r: SetupPlan)
    ensures
        r == spec_plan_setup(components, force, jre_available, jar_installed),
{
    SetupPlan {
        download_jre: components.jre && (force || !jre_available),
        download_jar: components.jar && (force || !jar_installed),
    }
}

/// Law: the install flow is idempotent. After one run whose downloads have
/// made the requested components present, a second run with identical
/// inputs and no force flag plans no downloads at all, so it performs no
/// further network calls.
pub proof fn lemma_setup_idempotent(
    components: ComponentSet,
    jre_available: bool,
    jar_installed: bool,
)
    ensures
        ({
            let first = spec_plan_setup(components, false, jre_available, jar_installed);
            let jre_after = jre_available || first.download_jre;
            let jar_after = jar_installed || first.download_jar;
            let second = spec_plan_setup(components, false, jre_after, jar_after);
            !second.download_jre && !second.download_jar
        }),
{
}

} // verus!
