//! Check git version.
//!
//! The version string that `git --version` prints is cleaned here and parsed
//! into a numeric [`Version`], and held against the officially supported
//! ranges. Pre-release and build metadata are not kept: the triple of
//! numbers is what the support check works on.

use vstd::prelude::*;
use vstd::string::StringExecFns;
use vstd::string::StrSliceExecFns;

use crate::strutil::{spec_trim, strip_prefix, trim};

verus! {

/// A parsed version: the numeric triple.
#[derive(Debug, Clone, Copy, PartialEq, Eq, Structural)]
pub struct Version {
    /// The major version number
    pub major: u64,
    /// The minor version number
    pub minor: u64,
    /// The patch version number
    pub patch: u64,
}

impl Version {
    /// A version from its three numbers.
    pub fn new(major: u64, minor: u64, patch: u64) -> (r: Version)
        ensures
            r == (Version { major, minor, patch }),
    {
        Version { major, minor, patch }
    }
}

/// What `semver::Version::parse` returns on a cleaned version string: the
/// numeric triple of the version it describes, or nothing where the text is
/// not a semantic version. The result depends on the text alone.
pub uninterp spec fn semver_triple_of(s: Seq<char>) -> Option<(u64, u64, u64)>;

/// Relies on semver::Version::parse: parses a semantic version and hands
/// back its numeric triple.
#[verifier::external_body]
fn semver_parse(s: &str) -> (r: Option<Version>)
    ensures
        match r {
            Option::Some(v) => semver_triple_of(s@) == Option::Some((v.major, v.minor, v.patch)),
            Option::None => semver_triple_of(s@) is None,
        },
{
    match semver::Version::parse(s) {
        Ok(v) => Option::Some(Version { major: v.major, minor: v.minor, patch: v.patch }),
        Err(_) => Option::None,
    }
}

/// What a semver requirement says of a version triple: whether the version
/// satisfies the requirement text, or nothing where the text is not a valid
/// requirement. Relies on semver alone, so the result depends on the
/// requirement text and the triple alone.
pub uninterp spec fn req_matches_of(req: Seq<char>, major: u64, minor: u64, patch: u64) -> Option<
    bool,
>;

/// Relies on semver::VersionReq::parse and semver::VersionReq::matches: asks
/// whether the version triple satisfies the requirement text.
#[verifier::external_body]
fn req_matches(req: &str, v: &Version) -> (r: Option<bool>)
    ensures
        r == req_matches_of(req@, v.major, v.minor, v.patch),
{
    match semver::VersionReq::parse(req) {
        Ok(q) => Option::Some(q.matches(&semver::Version::new(v.major, v.minor, v.patch))),
        Err(_) => Option::None,
    }
}

/// The version text of a `git --version` line: the line trimmed, the
/// `git version ` prefix dropped where it stands, and anything from
/// `.windows.` on dropped.
pub open spec fn spec_cleaned_version(line: Seq<char>) -> Seq<char> {
    let t = spec_trim(line);
    let unprefixed = if crate::strutil::is_prefix_of("git version "@, t) {
        t.skip("git version "@.len() as int)
    } else {
        t
    };
    let i = crate::strutil::spec_find_seq(unprefixed, ".windows."@);
    let cleaned = if i >= 0 {
        unprefixed.take(i)
    } else {
        unprefixed
    };
    spec_trim(cleaned)
}

/// Parse the output of `git --version` to a [`Version`]: the result is
/// exactly what semver makes of the cleaned version text.
pub fn parse_git_version(version: &str) -> (r: Option<Version>)
    ensures
        match r {
            Option::Some(v) => semver_triple_of(spec_cleaned_version(version@)) == Option::Some(
                (v.major, v.minor, v.patch),
            ),
            Option::None => semver_triple_of(spec_cleaned_version(version@)) is None,
        },
{
    let t = trim(version);
    let unprefixed = match strip_prefix(t.as_str(), "git version ") {
        Option::Some(u) => u,
        Option::None => t,
    };
    let cleaned = match crate::strutil::find_seq(unprefixed.as_str(), ".windows.") {
        Option::Some(i) => {
            let head = unprefixed.as_str().substring_char(0, i);
            proof {
                assert(head@ =~= unprefixed@.take(i as int));
            }
            head.to_owned()
        },
        Option::None => unprefixed,
    };
    let cleaned = trim(cleaned.as_str());
    semver_parse(cleaned.as_str())
}

/// The semver notation of the officially supported git versions
pub fn supported_git_versions() -> (r: Vec<String>)
    ensures
        r.deep_view() == seq![">=2.45.1"@, "~2.44.1"@, "~2.43.4"@],
{
    let mut v: Vec<String> = Vec::new();
    v.push(">=2.45.1".to_owned());
    v.push("~2.44.1".to_owned());
    v.push("~2.43.4".to_owned());
    proof {
        assert(v.deep_view() =~= seq![">=2.45.1"@, "~2.44.1"@, "~2.43.4"@]);
    }
    v
}

/// Get string representation of supported git versions
pub fn get_supported_versions() -> (r: String)
    ensures
        r@ == ">=2.45.1"@ + ", "@ + "~2.44.1"@ + ", "@ + "~2.43.4"@,
{
    let mut s = ">=2.45.1".to_owned();
    s.append(", ");
    s.append("~2.44.1");
    s.append(", ");
    s.append("~2.43.4");
    s
}

/// Whether a version is officially supported: it satisfies one of the
/// supported ranges.
pub fn is_supported(version: &Version) -> (r: bool)
    ensures
        r == {
            ||| req_matches_of(">=2.45.1"@, version.major, version.minor, version.patch)
                == Option::Some(true)
            ||| req_matches_of("~2.44.1"@, version.major, version.minor, version.patch)
                == Option::Some(true)
            ||| req_matches_of("~2.43.4"@, version.major, version.minor, version.patch)
                == Option::Some(true)
        },
{
    let a = match req_matches(">=2.45.1", version) {
        Option::Some(b) => b,
        Option::None => false,
    };
    let b = match req_matches("~2.44.1", version) {
        Option::Some(b) => b,
        Option::None => false,
    };
    let c = match req_matches("~2.43.4", version) {
        Option::Some(b) => b,
        Option::None => false,
    };
    a || b || c
}

} // verus!
