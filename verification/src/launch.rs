//! Launch support: assembling the delegated process's classpath and the
//! conventional locations of a runtime executable.

use vstd::prelude::*;

use crate::platform::Os;
use crate::platform::join_path;
use crate::platform::spec_java_executable;
use crate::platform::spec_join;

verus! {

/// The classpath separator for an operating system.
pub open spec fn spec_classpath_sep(os: Os) -> char {
    match os {
        Os::Windows => ';',
        _ => ':',
    }
}

/// The entries joined with the separator between each pair.
pub open spec fn spec_join_classpath(parts: Seq<Seq<char>>, sep: char) -> Seq<char>
    decreases parts.len(),
{
    if parts.len() == 0 {
        Seq::empty()
    } else if parts.len() == 1 {
        parts[0]
    } else {
        parts[0] + seq![sep] + spec_join_classpath(parts.drop_first(), sep)
    }
}

proof fn lemma_join_classpath_push(parts: Seq<Seq<char>>, x: Seq<char>, sep: char)
    requires
        parts.len() > 0,
    ensures
        spec_join_classpath(parts.push(x), sep) == spec_join_classpath(parts, sep) + seq![sep] + x,
    decreases parts.len(),
{
    if parts.len() == 1 {
        assert(parts.push(x).drop_first() =~= seq![x]);
        assert(parts.push(x)[0] == parts[0]);
        assert(spec_join_classpath(seq![x], sep) == x);
    } else {
        lemma_join_classpath_push(parts.drop_first(), x, sep);
        assert(parts.push(x).drop_first() =~= parts.drop_first().push(x));
        assert(parts.push(x)[0] == parts[0]);
        assert(parts[0] + seq![sep] + (spec_join_classpath(parts.drop_first(), sep) + seq![sep]
            + x) =~= (parts[0] + seq![sep] + spec_join_classpath(parts.drop_first(), sep))
            + seq![sep] + x);
    }
}

/// The single-character separator string for an operating system.
fn classpath_sep_str(os: Os) -> (r: &'static str)
    ensures
        r@ =~= seq![spec_classpath_sep(os)],
{
    match os {
        Os::Windows => {
            let s = ";";
            proof {
                reveal_strlit(";");
            }
            s
        },
        _ => {
            let s = ":";
            proof {
                reveal_strlit(":");
            }
            s
        },
    }
}

/// Build the delegated process's classpath: the application archive first,
/// then every extension archive, joined with the platform's separator.
pub fn build_classpath(jar_path: &String, ext_jars: &Vec<String>, os: Os) -> (r: String)
    ensures
        r@ == spec_join_classpath(
            seq![jar_path@] + ext_jars@.map_values(|s: String| s@),
            spec_classpath_sep(os),
        ),
{
    let ghost sep = spec_classpath_sep(os);
    let ghost all = seq![jar_path@] + ext_jars@.map_values(|s: String| s@);
    let sep_str = classpath_sep_str(os);
    let mut r: String = jar_path.clone();
    let n = ext_jars.len();
    proof {
        assert(all.subrange(0, 1) =~= seq![jar_path@]);
        assert(spec_join_classpath(seq![jar_path@], sep) == jar_path@);
    }
    let mut i: usize = 0;
    while i < n
        invariant
            i <= n,
            n == ext_jars@.len(),
            all == seq![jar_path@] + ext_jars@.map_values(|s: String| s@),
            all.len() == 1 + n,
            r@ == spec_join_classpath(all.subrange(0, 1 + i as int), sep),
            sep_str@ =~= seq![sep],
        decreases n - i,
    {
        let ghost prefix = all.subrange(0, 1 + i as int);
        r.append(sep_str);
        r.append(ext_jars[i].as_str());
        proof {
            assert(all[1 + i as int] == ext_jars@.map_values(|s: String| s@)[i as int]);
            assert(prefix.push(all[1 + i as int]) =~= all.subrange(0, 2 + i as int));
            lemma_join_classpath_push(prefix, all[1 + i as int], sep);
        }
        i += 1;
    }
    proof {
        assert(all.subrange(0, 1 + n as int) =~= all);
    }
    r
}

/// The conventional locations, tried in order, of the runtime executable
/// inside an installed runtime directory: `bin/`, the platform app-bundle
/// path, and a nested `jre/bin/`.
pub fn java_candidate_paths(jre_dir: &str, os: Os) -> (r: Vec<String>)
    ensures
        r@.len() == 3,
        r@[0]@ == spec_join(spec_join(jre_dir@, "bin"@), spec_java_executable(os)),
        r@[1]@ == spec_join(spec_join(jre_dir@, "Contents/Home/bin"@), spec_java_executable(os)),
        r@[2]@ == spec_join(spec_join(jre_dir@, "jre/bin"@), spec_java_executable(os)),
{
    let exe = os.java_executable();
    let bin = join_path(jre_dir, "bin");
    let bundle = join_path(jre_dir, "Contents/Home/bin");
    let nested = join_path(jre_dir, "jre/bin");
    let mut r: Vec<String> = Vec::new();
    r.push(join_path(bin.as_str(), exe));
    r.push(join_path(bundle.as_str(), exe));
    r.push(join_path(nested.as_str(), exe));
    r
}

/// The locations tried for the runtime executable inside an explicitly
/// configured runtime directory: `bin/java`, `bin/java.exe`, and the
/// platform app-bundle path.
pub fn configured_java_candidates(jre_dir: &str) -> (r: Vec<String>)
    ensures
        r@.len() == 3,
        r@[0]@ == spec_join(jre_dir@, "bin/java"@),
        r@[1]@ == spec_join(jre_dir@, "bin/java.exe"@),
        r@[2]@ == spec_join(jre_dir@, "Contents/Home/bin/java"@),
{
    let mut r: Vec<String> = Vec::new();
    r.push(join_path(jre_dir, "bin/java"));
    r.push(join_path(jre_dir, "bin/java.exe"));
    r.push(join_path(jre_dir, "Contents/Home/bin/java"));
    r
}

} // verus!
