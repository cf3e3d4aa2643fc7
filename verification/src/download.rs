//! Download integrity: digest computation, checksum comparison, and the
//! completion step that decides whether a streamed artifact may be
//! published to its final path.

use sha2::Digest;
use vstd::prelude::*;

use crate::error::KarateError;
use crate::text::eq_str;
use crate::text::spec_eq_ignore_ascii_case;
use crate::text::str_chars_len;
use crate::text::substring_copy;
use vstd::string::StrSliceExecFns;

verus! {

/// The 64-character lowercase hex rendering of the SHA-256 digest of a byte
/// sequence. Its value is fixed by the outside digest implementation; this
/// crate only carries it around and compares against it.
pub uninterp spec fn sha256_hex_of(bytes: Seq<u8>) -> Seq<char>;

/// A lowercase hexadecimal digit.
pub open spec fn spec_is_lower_hex(c: char) -> bool {
    (48 <= c as u32 && c as u32 <= 57) || (97 <= c as u32 && c as u32 <= 102)
}

/// Relies on sha2::Sha256::digest, whose 32-byte result depends on the
/// input bytes alone, and hex::encode, which renders each byte as exactly
/// two lowercase hexadecimal digits.
#[verifier::external_body]
fn sha256_hex(bytes: &Vec<u8>) -> (r: String)
    ensures
        r@ == sha256_hex_of(bytes@),
        r@.len() == 64,
        forall|i: int| 0 <= i < r@.len() ==> spec_is_lower_hex(#[trigger] r@[i]),
{
    hex::encode(sha2::Sha256::digest(bytes.as_slice()))
}

/// Whether an expected checksum matches a computed digest, compared
/// ASCII-case-insensitively.
pub fn checksum_matches(expected: &str, actual: &str) -> (r: bool)
    ensures
        r == spec_eq_ignore_ascii_case(expected@, actual@),
{
    crate::text::eq_ignore_ascii_case(expected, actual)
}

/// What is to be done with a fully streamed artifact.
#[derive(Debug)]
pub enum DownloadDecision {
    /// The content may be published to its final path.
    Publish,
    /// The digest does not match the supplied checksum: the temporary file
    /// is to be deleted and the final path left untouched.
    RejectChecksum { expected: String, actual: String },
}

/// The streamed content is acceptable: either no checksum was supplied, or
/// the supplied checksum equals the content's digest up to ASCII case.
pub open spec fn spec_content_acceptable(content: Seq<u8>, expected: Option<&String>) -> bool {
    match expected {
        None => true,
        Some(e) => spec_eq_ignore_ascii_case(e@, sha256_hex_of(content)),
    }
}

/// Decide whether fully streamed content may be published, by computing its
/// digest and comparing it against the expected checksum when one was
/// supplied.
pub fn decide_download(content: &Vec<u8>, expected_sha256: Option<&String>) -> (r:
    DownloadDecision)
    ensures
        spec_content_acceptable(content@, expected_sha256) <==> r is Publish,
        r matches DownloadDecision::RejectChecksum { expected, actual } ==> {
            &&& expected_sha256 matches Some(e) && expected@ == e@
            &&& actual@ == sha256_hex_of(content@)
        },
{
    match expected_sha256 {
        None => DownloadDecision::Publish,
        Some(e) => {
            let digest = sha256_hex(content);
            if checksum_matches(e.as_str(), digest.as_str()) {
                DownloadDecision::Publish
            } else {
                DownloadDecision::RejectChecksum { expected: e.clone(), actual: digest }
            }
        },
    }
}

/// A release asset: a file name and its download URL.
#[derive(Debug, Clone)]
pub struct GitHubAsset {
    pub name: String,
    pub browser_download_url: String,
}

/// Release info from a hosting service, kept as a fallback when the
/// manifest is unavailable.
#[derive(Debug, Clone)]
pub struct GitHubRelease {
    pub tag_name: String,
    pub assets: Vec<GitHubAsset>,
}

/// The first asset of `release` whose name reads `name`, if any.
pub fn find_asset<'a>(release: &'a GitHubRelease, name: &str) -> (r: Option<&'a GitHubAsset>)
    ensures
        match r {
            Some(a) => exists|i: int|
                0 <= i < release.assets@.len() && *a == release.assets@[i] && a.name@ == name@,
            None => forall|i: int|
                0 <= i < release.assets@.len() ==> release.assets@[i].name@ != name@,
        },
{
    let n = release.assets.len();
    let mut i: usize = 0;
    while i < n
        invariant
            i <= n,
            n == release.assets@.len(),
            forall|k: int| 0 <= k < i ==> release.assets@[k].name@ != name@,
        decreases n - i,
    {
        if eq_str(release.assets[i].name.as_str(), name) {
            return Some(&release.assets[i]);
        }
        i += 1;
    }
    None
}

/// `s` with every leading `c` removed.
pub open spec fn spec_trim_leading(s: Seq<char>, c: char) -> Seq<char>
    decreases s.len(),
{
    if s.len() > 0 && s[0] == c {
        spec_trim_leading(s.drop_first(), c)
    } else {
        s
    }
}

proof fn lemma_trim_leading_at(s: Seq<char>, c: char, i: int)
    requires
        0 <= i <= s.len(),
        forall|k: int| 0 <= k < i ==> s[k] == c,
        i < s.len() ==> s[i] != c,
    ensures
        spec_trim_leading(s, c) == s.subrange(i, s.len() as int),
    decreases i,
{
    if i == 0 {
        assert(s.subrange(0, s.len() as int) =~= s);
    } else {
        lemma_trim_leading_at(s.drop_first(), c, i - 1);
        assert(s.drop_first().subrange(i - 1, s.drop_first().len() as int) =~= s.subrange(
            i,
            s.len() as int,
        ));
    }
}

/// The version denoted by a release tag: the tag with its leading `v`
/// markers removed.
pub fn release_version(tag: &str) -> (r: String)
    ensures
        r@ == spec_trim_leading(tag@, 'v'),
{
    let n = str_chars_len(tag);
    let mut i: usize = 0;
    while i < n
        invariant
            i <= n,
            n == tag@.len(),
            forall|k: int| 0 <= k < i ==> tag@[k] == 'v',
        decreases n - i,
    {
        if tag.get_char(i) != 'v' {
            proof {
                lemma_trim_leading_at(tag@, 'v', i as int);
            }
            return substring_copy(tag, i, n);
        }
        i += 1;
    }
    proof {
        lemma_trim_leading_at(tag@, 'v', n as int);
    }
    substring_copy(tag, n, n)
}

/// The two file slots that one download touches: the final destination path
/// and its temporary sibling. `None` models a path that does not exist;
/// `Some` holds the bytes stored at the path.
#[derive(Debug)]
pub struct DownloadSlots {
    pub dest: Option<Vec<u8>>,
    pub temp: Option<Vec<u8>>,
}

impl DownloadSlots {
    /// Complete a download whose stream has fully arrived: the content
    /// stands in the temporary slot; verify it and either publish it to the
    /// destination by rename or delete it.
    ///
    /// On a checksum mismatch the destination is never touched and the
    /// temporary file is removed; otherwise the content is published
    /// atomically and is then exactly the transferred bytes.
    pub fn finish(self, content: Vec<u8>, expected_sha256: Option<&String>, dest_name: &str) -> (r:
        (DownloadSlots, Result<(), KarateError>))
        requires
            self.temp matches Some(t) && t@ == content@,
        ensures
            spec_content_acceptable(content@, expected_sha256) ==> {
                &&& r.0.dest matches Some(d) && d@ == content@
                &&& r.0.temp is None
                &&& r.1 is Ok
            },
            !spec_content_acceptable(content@, expected_sha256) ==> {
                &&& r.0.dest == self.dest
                &&& r.0.temp is None
                &&& r.1 matches Err(KarateError::ChecksumMismatch { file, expected, actual })
                    && file@ == dest_name@ && (expected_sha256 matches Some(e) && expected@ == e@)
                    && actual@ == sha256_hex_of(content@)
            },
    {
        match decide_download(&content, expected_sha256) {
            DownloadDecision::Publish => {
                let next = DownloadSlots { dest: Some(content), temp: None };
                (next, Ok(()))
            },
            DownloadDecision::RejectChecksum { expected, actual } => {
                let next = DownloadSlots { dest: self.dest, temp: None };
                (
                    next,
                    Err(
                        KarateError::ChecksumMismatch {
                            file: dest_name.to_owned(),
                            expected,
                            actual,
                        },
                    ),
                )
            },
        }
    }
}

} // verus!
