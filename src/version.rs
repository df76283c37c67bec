use vstd::prelude::*;

verus! {

/// A runtime version: its numeric parts, and whether it carries a pre-release
/// tag (`70.0.0-beta`), which orders it before the release itself.
#[derive(Clone, Copy, Debug, PartialEq, Eq, Structural)]
pub struct Version {
    pub major: u64,
    pub minor: u64,
    pub patch: u64,
    pub pre_release: bool,
}

/// `a < b` in the order of major, then minor, then patch; with equal numbers
/// a pre-release comes before the release. Two pre-releases of one release are
/// not ordered against each other.
pub open spec fn version_lt(a: Version, b: Version) -> bool {
    a.major < b.major || (a.major == b.major && (a.minor < b.minor || (a.minor == b.minor && (a.patch
        < b.patch || (a.patch == b.patch && a.pre_release && !b.pre_release)))))
}

/// What `semver::Version::parse` reads from a text: major, minor, patch and
/// the pre-release tag.
pub uninterp spec fn semver_parts(s: Seq<char>) -> Option<(u64, u64, u64, Seq<char>)>;

/// The character of a decimal digit.
pub open spec fn digit_char(d: nat) -> char {
    if d == 0 {
        '0'
    } else if d == 1 {
        '1'
    } else if d == 2 {
        '2'
    } else if d == 3 {
        '3'
    } else if d == 4 {
        '4'
    } else if d == 5 {
        '5'
    } else if d == 6 {
        '6'
    } else if d == 7 {
        '7'
    } else if d == 8 {
        '8'
    } else {
        '9'
    }
}

/// The decimal text of `n`, without leading zeros.
pub open spec fn decimal(n: nat) -> Seq<char>
    decreases n,
{
    if n < 10 {
        seq![digit_char(n)]
    } else {
        decimal(n / 10).push(digit_char(n % 10))
    }
}

/// The text `a.b.c` in decimal.
pub open spec fn plain_version_text(a: u64, b: u64, c: u64) -> Seq<char> {
    decimal(a as nat) + seq!['.'] + decimal(b as nat) + seq!['.'] + decimal(c as nat)
}

impl Version {
    /// A release version (no pre-release tag).
    pub fn new(major: u64, minor: u64, patch: u64) -> (r: Version)
        ensures
            r == (Version { major, minor, patch, pre_release: false }),
    {
        Version { major, minor, patch, pre_release: false }
    }

    pub fn lt(&self, other: &Version) -> (r: bool)
        ensures
            r == version_lt(*self, *other),
    {
        if self.major != other.major {
            self.major < other.major
        } else if self.minor != other.minor {
            self.minor < other.minor
        } else if self.patch != other.patch {
            self.patch < other.patch
        } else {
            self.pre_release && !other.pre_release
        }
    }
}

/// The parts of a parse result, with the pre-release tag as characters.
pub open spec fn parts_view(r: Option<(u64, u64, u64, String)>) -> Option<(u64, u64, u64, Seq<char>)> {
    match r {
        Some((a, b, c, p)) => Some((a, b, c, p@)),
        None => None,
    }
}

/// Relies on `semver::Version::parse`: the parts of the version it reads, or
/// `None` where it refuses the text. Three decimal numbers without leading
/// zeros, joined by dots, read as those numbers with an empty pre-release tag.
#[verifier::external_body]
fn semver_parse(s: &str) -> (r: Option<(u64, u64, u64, String)>)
    ensures
        parts_view(r) == semver_parts(s@),
        forall|a: u64, b: u64, c: u64|
            #![trigger plain_version_text(a, b, c)]
            s@ == plain_version_text(a, b, c) ==> parts_view(r) == Some((a, b, c, Seq::<char>::empty())),
{
    semver::Version::parse(s).ok().map(|v| (v.major, v.minor, v.patch, v.pre.as_str().to_owned()))
}

/// The version that `semver_parts` gives for a text.
pub open spec fn parsed(s: Seq<char>) -> Option<Version> {
    match semver_parts(s) {
        Some((a, b, c, p)) => Some(Version { major: a, minor: b, patch: c, pre_release: p.len() != 0 }),
        None => None,
    }
}

/// Reads a version string such as `"70.0.0"` or `"11.0.0-beta.1"`.
pub fn parse_version(s: &str) -> (r: Option<Version>)
    ensures
        r == parsed(s@),
        forall|a: u64, b: u64, c: u64|
            #![trigger plain_version_text(a, b, c)]
            s@ == plain_version_text(a, b, c) ==> r == Some(Version::new_spec(a, b, c)),
{
    match semver_parse(s) {
        Some((a, b, c, p)) => Some(Version { major: a, minor: b, patch: c, pre_release: !p.as_str().is_empty() }),
        None => None,
    }
}

impl Version {
    /// The release version `major.minor.patch`.
    pub open spec fn new_spec(major: u64, minor: u64, patch: u64) -> Version {
        Version { major, minor, patch, pre_release: false }
    }
}

} // verus!
