//! Resolving a runtime download from a JustJ manifest: a plain-text
//! document listing one archive per line.

use vstd::prelude::*;

use crate::text::concat2;
use crate::text::concat3;
use crate::text::contains_sub;
use crate::text::ends_with;
use crate::text::eq_str;
use crate::text::index_of_char;
use crate::text::spec_all_digits;
use crate::text::spec_contains;
use crate::text::spec_dec_value;
use crate::text::spec_digit_val;
use crate::text::spec_ends_with;
use crate::text::spec_starts_with;
use crate::text::starts_with;
use crate::text::str_chars_len;
use crate::text::substring_copy;
use crate::text::u8_to_dec_string;
use vstd::string::StrSliceExecFns;

verus! {

/// Runtime download info resolved from a JustJ manifest.
#[derive(Debug, Clone)]
pub struct JustJInfo {
    pub download_url: String,
    pub version_label: String,
}

/// The vendor platform label used by JustJ for a canonical platform key;
/// unknown keys pass through unchanged.
pub open spec fn spec_to_justj(s: Seq<char>) -> Seq<char> {
    if s == "macos-aarch64"@ {
        "macosx-aarch64"@
    } else if s == "macos-x64"@ {
        "macosx-x86_64"@
    } else if s == "linux-x64"@ {
        "linux-x86_64"@
    } else if s == "linux-aarch64"@ {
        "linux-aarch64"@
    } else if s == "windows-x64"@ {
        "win32-x86_64"@
    } else {
        s
    }
}

/// Map a canonical platform key to the JustJ platform label.
pub fn to_justj_platform(platform: &str) -> (r: String)
    ensures
        r@ == spec_to_justj(platform@),
{
    if eq_str(platform, "macos-aarch64") {
        "macosx-aarch64".to_owned()
    } else if eq_str(platform, "macos-x64") {
        "macosx-x86_64".to_owned()
    } else if eq_str(platform, "linux-x64") {
        "linux-x86_64".to_owned()
    } else if eq_str(platform, "linux-aarch64") {
        "linux-aarch64".to_owned()
    } else if eq_str(platform, "windows-x64") {
        "win32-x86_64".to_owned()
    } else {
        platform.to_owned()
    }
}

/// `[a, b)` delimits one line of `s`: it abuts the start of the text or a
/// preceding newline, ends at the end of the text or at a newline, and
/// holds no newline itself.
pub open spec fn spec_is_line(s: Seq<char>, a: int, b: int) -> bool {
    &&& 0 <= a <= b <= s.len()
    &&& (a == 0 || s[a - 1] == '\n')
    &&& (b == s.len() || s[b] == '\n')
    &&& forall|k: int| a <= k < b ==> s[k] != '\n'
}

/// A line of `s` delimited by `[a, b)` holds both needles.
pub open spec fn spec_line_matches(s: Seq<char>, a: int, b: int, n1: Seq<char>, n2: Seq<
    char,
>) -> bool {
    spec_contains(s.subrange(a, b), n1) && spec_contains(s.subrange(a, b), n2)
}

/// Find the first line of `s` (split on newlines) that holds both `n1` and
/// `n2`, returning a copy of it.
pub fn find_matching_line(s: &str, n1: &str, n2: &str) -> (r: Option<String>)
    ensures
        match r {
            Some(line) => exists|a: int, b: int|
                spec_is_line(s@, a, b) && line@ == s@.subrange(a, b) && spec_line_matches(
                    s@,
                    a,
                    b,
                    n1@,
                    n2@,
                ) && (forall|a2: int, b2: int|
                    spec_is_line(s@, a2, b2) && a2 < a ==> !spec_line_matches(
                        s@,
                        a2,
                        b2,
                        n1@,
                        n2@,
                    )),
            None => forall|a: int, b: int|
                spec_is_line(s@, a, b) ==> !spec_line_matches(s@, a, b, n1@, n2@),
        },
{
    let n = str_chars_len(s);
    let mut start: usize = 0;
    while start <= n
        invariant
            start <= n + 1,
            n == s@.len(),
            start == 0 || (start <= n && s@[start as int - 1] == '\n'),
            forall|a2: int, b2: int|
                spec_is_line(s@, a2, b2) && a2 < start ==> !spec_line_matches(s@, a2, b2, n1@, n2@),
        decreases n + 1 - start,
    {
        let e = match index_of_char(s, '\n', start) {
            Some(j) => j,
            None => n,
        };
        let line = substring_copy(s, start, e);
        if contains_sub(line.as_str(), n1) && contains_sub(line.as_str(), n2) {
            proof {
                assert(spec_is_line(s@, start as int, e as int));
            }
            return Some(line);
        }
        proof {
            // the only line beginning in [start, e] is [start, e) itself
            assert forall|a2: int, b2: int|
                spec_is_line(s@, a2, b2) && start <= a2 <= e implies a2 == start && b2
                == e by {
                if a2 > start {
                    assert(s@[a2 - 1] == '\n');
                    assert(start <= a2 - 1 < e);
                    assert(false);
                }
                if b2 < e {
                    assert(b2 < s@.len());
                    assert(s@[b2] == '\n');
                    assert(start <= b2 < e);
                    assert(false);
                }
                if b2 > e {
                    assert((e as int) < s@.len() && s@[e as int] == '\n');
                    assert(a2 <= e < b2);
                    assert(false);
                }
            }
        }
        if e == n {
            return None;
        }
        start = e + 1;
    }
    proof {
        assert(false);
    }
    None
}

/// `r` is the part of `s` after its last slash: either a slash stands just
/// before `r` and none follows, or `s` holds no slash and `r` is all of it.
pub open spec fn spec_after_last_slash(s: Seq<char>, r: Seq<char>) -> bool {
    ||| exists|j: int|
        0 <= j < s.len() && s[j] == '/' && r == s.subrange(j + 1, s.len() as int) && (forall|
            k: int,
        |
            j < k < s.len() ==> s[k] != '/')
    ||| (forall|k: int| 0 <= k < s.len() ==> s[k] != '/') && r == s
}

/// The file name part of an entry path: everything after the last slash,
/// or the whole entry when it has none.
pub fn after_last_slash(s: &str) -> (r: String)
    ensures
        spec_after_last_slash(s@, r@),
{
    let n = str_chars_len(s);
    let mut i: usize = n;
    while i > 0
        invariant
            i <= n,
            n == s@.len(),
            forall|k: int| i <= k < n ==> s@[k] != '/',
        decreases i,
    {
        if s.get_char(i - 1) == '/' {
            return substring_copy(s, i, n);
        }
        i -= 1;
    }
    let r = substring_copy(s, 0, n);
    proof {
        assert(r@ =~= s@);
    }
    r
}

/// The version label denoted by an archive file name: the name with the
/// given prefix and suffix removed when both are present, the name itself
/// otherwise.
pub open spec fn spec_affix_stripped(f: Seq<char>, p: Seq<char>, sfx: Seq<char>) -> Seq<char> {
    if spec_starts_with(f, p) && spec_ends_with(f, sfx) && p.len() + sfx.len() <= f.len() {
        f.subrange(p.len() as int, f.len() - sfx.len())
    } else {
        f
    }
}

/// Strip a prefix and suffix from `f` when both fit and are present;
/// otherwise hand `f` back unchanged.
pub fn strip_affixes(f: &str, p: &str, sfx: &str) -> (r: String)
    ensures
        r@ == spec_affix_stripped(f@, p@, sfx@),
{
    let nf = str_chars_len(f);
    let np = str_chars_len(p);
    let ns = str_chars_len(sfx);
    if np <= nf && ns <= nf - np && starts_with(f, p) && ends_with(f, sfx) {
        substring_copy(f, np, nf - ns)
    } else {
        let r = substring_copy(f, 0, nf);
        proof {
            assert(r@ =~= f@);
        }
        r
    }
}

/// `u` is the decimal rendering of `v`: all digits, denoting `v`, with no
/// leading zero.
pub open spec fn spec_is_dec_of(u: Seq<char>, v: int) -> bool {
    &&& u.len() > 0
    &&& spec_all_digits(u)
    &&& spec_dec_value(u) == v
    &&& (u.len() > 1 ==> spec_digit_val(u[0]) != 0)
}

/// The URL of the JustJ manifest for a major version.
pub fn justj_manifest_url(java_version: u8) -> (r: String)
    ensures
        exists|d: Seq<char>|
            spec_is_dec_of(d, java_version as int) && r@ == "https://download.eclipse.org/justj/jres/"@
                + d + "/downloads/latest/justj.manifest"@,
{
    let ver = u8_to_dec_string(java_version);
    let r = concat3(
        "https://download.eclipse.org/justj/jres/",
        ver.as_str(),
        "/downloads/latest/justj.manifest",
    );
    proof {
        assert(spec_is_dec_of(ver@, java_version as int));
    }
    r
}

/// The download URL for a manifest entry of a major version.
pub fn justj_download_url(java_version: u8, entry: &str) -> (r: String)
    ensures
        exists|d: Seq<char>|
            spec_is_dec_of(d, java_version as int) && r@ == "https://download.eclipse.org/justj/jres/"@
                + d + "/downloads/latest/"@ + entry@,
{
    let ver = u8_to_dec_string(java_version);
    let base = concat3("https://download.eclipse.org/justj/jres/", ver.as_str(), "/downloads/latest/");
    let r = concat2(base.as_str(), entry);
    proof {
        assert(spec_is_dec_of(ver@, java_version as int));
        assert(r@ == "https://download.eclipse.org/justj/jres/"@ + ver@ + "/downloads/latest/"@
            + entry@);
    }
    r
}

/// The archive-name marker that identifies full stripped runtime builds in
/// a JustJ manifest.
pub fn justj_entry_marker() -> (r: &'static str)
    ensures
        r@ == "org.eclipse.justj.openjdk.hotspot.jre.full.stripped"@,
{
    "org.eclipse.justj.openjdk.hotspot.jre.full.stripped"
}

/// Resolve the runtime download for a platform from the body of a JustJ
/// manifest: the first line naming a full stripped runtime build for the
/// platform's vendor label yields the download URL and the version label
/// taken from the entry's file name.
pub fn resolve_justj_info(manifest_body: &str, java_version: u8, platform: &str) -> (r: Option<
    JustJInfo,
>)
    ensures
        ({
            let marker = "org.eclipse.justj.openjdk.hotspot.jre.full.stripped"@;
            let plat = spec_to_justj(platform@);
            match r {
                None => forall|a: int, b: int|
                    spec_is_line(manifest_body@, a, b) ==> !spec_line_matches(
                        manifest_body@,
                        a,
                        b,
                        marker,
                        plat,
                    ),
                Some(info) => exists|a: int, b: int|
                    #![trigger spec_is_line(manifest_body@, a, b)]
                    {
                        let line = manifest_body@.subrange(a, b);
                        &&& spec_is_line(manifest_body@, a, b)
                        &&& spec_line_matches(manifest_body@, a, b, marker, plat)
                        &&& (forall|a2: int, b2: int|
                            spec_is_line(manifest_body@, a2, b2) && a2 < a
                                ==> !spec_line_matches(manifest_body@, a2, b2, marker, plat))
                        &&& (exists|d: Seq<char>|
                            spec_is_dec_of(d, java_version as int) && info.download_url@
                                == "https://download.eclipse.org/justj/jres/"@ + d
                                + "/downloads/latest/"@ + line)
                        &&& (exists|f: Seq<char>|
                            spec_after_last_slash(line, f) && info.version_label@
                                == spec_affix_stripped(
                                f,
                                "org.eclipse.justj.openjdk.hotspot.jre.full.stripped-"@,
                                ".tar.gz"@,
                            ))
                    },
            }
        }),
{
    let justj_platform = to_justj_platform(platform);
    let marker = justj_entry_marker();
    let entry = match find_matching_line(manifest_body, marker, justj_platform.as_str()) {
        Some(line) => line,
        None => {
            return None;
        },
    };
    let filename = after_last_slash(entry.as_str());
    let version_label = strip_affixes(
        filename.as_str(),
        "org.eclipse.justj.openjdk.hotspot.jre.full.stripped-",
        ".tar.gz",
    );
    let download_url = justj_download_url(java_version, entry.as_str());
    Some(JustJInfo { download_url, version_label })
}

} // verus!
