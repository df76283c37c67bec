use vstd::prelude::*;
use crate::analyzer::is_word;
use crate::version::{Version, version_lt, parse_version, parsed};

verus! {

/// One value for each known runtime platform.
#[derive(Clone, Copy, Debug, Default)]
pub struct BrowserData<T> {
    pub chrome: T,
    pub ie: T,
    pub edge: T,
    pub firefox: T,
    pub safari: T,
    pub node: T,
    pub ios: T,
    pub samsung: T,
    pub opera: T,
    pub android: T,
    pub electron: T,
    pub phantom: T,
}

/// The number of known platforms.
pub const PLATFORMS: usize = 12;

/// A minimum (or target) version for each platform; `None` where there is none.
pub type Versions = BrowserData<Option<Version>>;

impl<T> BrowserData<T> {
    /// The entries in platform order: chrome, ie, edge, firefox, safari, node,
    /// ios, samsung, opera, android, electron, phantom.
    pub open spec fn entries(self) -> Seq<T> {
        seq![
            self.chrome,
            self.ie,
            self.edge,
            self.firefox,
            self.safari,
            self.node,
            self.ios,
            self.samsung,
            self.opera,
            self.android,
            self.electron,
            self.phantom,
        ]
    }
}

/// `r` borrows the value that `o` holds, if any.
pub open spec fn borrows<T>(r: Option<&T>, o: Option<T>) -> bool {
    match (r, o) {
        (Some(x), Some(y)) => *x == y,
        (None, None) => true,
        _ => false,
    }
}

impl<T> BrowserData<Option<T>> {
    /// Borrows each entry.
    pub fn as_ref(&self) -> (r: BrowserData<Option<&T>>)
        ensures
            borrows(r.chrome, self.chrome),
            borrows(r.ie, self.ie),
            borrows(r.edge, self.edge),
            borrows(r.firefox, self.firefox),
            borrows(r.safari, self.safari),
            borrows(r.node, self.node),
            borrows(r.ios, self.ios),
            borrows(r.samsung, self.samsung),
            borrows(r.opera, self.opera),
            borrows(r.android, self.android),
            borrows(r.electron, self.electron),
            borrows(r.phantom, self.phantom),
    {
        BrowserData {
            chrome: self.chrome.as_ref(),
            ie: self.ie.as_ref(),
            edge: self.edge.as_ref(),
            firefox: self.firefox.as_ref(),
            safari: self.safari.as_ref(),
            node: self.node.as_ref(),
            ios: self.ios.as_ref(),
            samsung: self.samsung.as_ref(),
            opera: self.opera.as_ref(),
            android: self.android.as_ref(),
            electron: self.electron.as_ref(),
            phantom: self.phantom.as_ref(),
        }
    }
}

/// No platform carries a version.
pub open spec fn no_targets(t: Versions) -> bool {
    forall|i: int| 0 <= i < PLATFORMS ==> (#[trigger] t.entries()[i]) is None
}

/// Platform `i` is targeted and lacks native support: the feature never shipped
/// there, or the target version is older than the one it shipped in.
pub open spec fn lacks_support(row: Versions, t: Versions, i: int) -> bool {
    &&& t.entries()[i] is Some
    &&& (row.entries()[i] is None || version_lt(t.entries()[i]->0, row.entries()[i]->0))
}

/// Whether a feature with compatibility row `row` must be lowered for targets `t`.
pub open spec fn enable_rule(row: Versions, t: Versions, default_on: bool) -> bool {
    if no_targets(t) {
        default_on
    } else {
        exists|i: int| 0 <= i < PLATFORMS && #[trigger] lacks_support(row, t, i)
    }
}

impl BrowserData<Option<Version>> {
    /// True when no platform carries a version, that is when any target goes.
    pub fn is_any_target(&self) -> (r: bool)
        ensures
            r == no_targets(*self),
    {
        let r = self.chrome.is_none() && self.ie.is_none() && self.edge.is_none()
            && self.firefox.is_none() && self.safari.is_none() && self.node.is_none()
            && self.ios.is_none() && self.samsung.is_none() && self.opera.is_none()
            && self.android.is_none() && self.electron.is_none() && self.phantom.is_none();
        proof {
            if !r {
                let e = self.entries();
                assert(e[0] is Some || e[1] is Some || e[2] is Some || e[3] is Some || e[4] is Some
                    || e[5] is Some || e[6] is Some || e[7] is Some || e[8] is Some || e[9] is Some
                    || e[10] is Some || e[11] is Some);
            }
        }
        r
    }

    /// The entries as a vector, in platform order.
    pub fn to_vec(&self) -> (r: Vec<Option<Version>>)
        ensures
            r@ == self.entries(),
    {
        let r = vec![
            self.chrome,
            self.ie,
            self.edge,
            self.firefox,
            self.safari,
            self.node,
            self.ios,
            self.samsung,
            self.opera,
            self.android,
            self.electron,
            self.phantom,
        ];
        proof {
            assert(r@ =~= self.entries());
        }
        r
    }
}

/// Decides `enable_rule` for a compatibility row and a set of targets.
pub fn should_enable_row(row: &Versions, targets: &Versions, default_on: bool) -> (r: bool)
    ensures
        r == enable_rule(*row, *targets, default_on),
{
    if targets.is_any_target() {
        return default_on;
    }
    let rs = row.to_vec();
    let ts = targets.to_vec();
    let mut i: usize = 0;
    while i < PLATFORMS
        invariant
            0 <= i <= PLATFORMS,
            rs@ == row.entries(),
            ts@ == targets.entries(),
            forall|j: int| 0 <= j < i ==> !#[trigger] lacks_support(*row, *targets, j),
        decreases PLATFORMS - i,
    {
        if let Some(tv) = ts[i] {
            let lacks = match rs[i] {
                None => true,
                Some(rv) => tv.lt(&rv),
            };
            if lacks {
                proof {
                    assert(lacks_support(*row, *targets, i as int));
                }
                return true;
            }
        }
        i += 1;
    }
    false
}

/// With no targets, a feature is enabled exactly when it is on by default.
pub proof fn lemma_no_targets_gives_default(row: Versions, t: Versions, default_on: bool)
    requires
        no_targets(t),
    ensures
        enable_rule(row, t, default_on) == default_on,
{
}

/// With a single targeted platform whose version is at least the one the
/// feature shipped in, the feature is not enabled.
pub proof fn lemma_supported_single_target(row: Versions, t: Versions, p: int, default_on: bool)
    requires
        0 <= p < PLATFORMS,
        row.entries()[p] is Some,
        t.entries()[p] is Some,
        !version_lt(t.entries()[p]->0, row.entries()[p]->0),
        forall|i: int| 0 <= i < PLATFORMS && i != p ==> (#[trigger] t.entries()[i]) is None,
    ensures
        !enable_rule(row, t, default_on),
{
    assert(!no_targets(t));
    assert forall|i: int| 0 <= i < PLATFORMS implies !#[trigger] lacks_support(row, t, i) by {
        if i != p {
            assert(t.entries()[i] is None);
        }
    }
}

/// The platform names, in platform order.
pub open spec fn platform_names() -> Seq<Seq<char>> {
    seq![
        "chrome"@,
        "ie"@,
        "edge"@,
        "firefox"@,
        "safari"@,
        "node"@,
        "ios"@,
        "samsung"@,
        "opera"@,
        "android"@,
        "electron"@,
        "phantom"@,
    ]
}

/// The first platform, in platform order, at or after `i` that `name` names.
pub open spec fn platform_from(name: Seq<char>, i: nat) -> Option<int>
    decreases PLATFORMS - i,
{
    if i >= PLATFORMS {
        None
    } else if platform_names()[i as int] == name {
        Some(i as int)
    } else {
        platform_from(name, i + 1)
    }
}

/// The platform that `name` names.
pub open spec fn platform_index(name: Seq<char>) -> Option<int> {
    platform_from(name, 0)
}

/// The platform named `name`, if any.
pub fn find_platform(name: &String) -> (r: Option<usize>)
    ensures
        match r {
            Some(i) => i < PLATFORMS && platform_index(name@) == Some(i as int),
            None => platform_index(name@) is None,
        },
{
    proof {
        reveal_with_fuel(platform_from, 13);
    }
    if is_word(name, "chrome") {
        return Some(0);
    }
    if is_word(name, "ie") {
        return Some(1);
    }
    if is_word(name, "edge") {
        return Some(2);
    }
    if is_word(name, "firefox") {
        return Some(3);
    }
    if is_word(name, "safari") {
        return Some(4);
    }
    if is_word(name, "node") {
        return Some(5);
    }
    if is_word(name, "ios") {
        return Some(6);
    }
    if is_word(name, "samsung") {
        return Some(7);
    }
    if is_word(name, "opera") {
        return Some(8);
    }
    if is_word(name, "android") {
        return Some(9);
    }
    if is_word(name, "electron") {
        return Some(10);
    }
    if is_word(name, "phantom") {
        return Some(11);
    }
    None
}

impl<T> BrowserData<T> {
    /// Replaces the entry of platform `i`.
    pub fn set(&mut self, i: usize, v: T)
        requires
            i < PLATFORMS,
        ensures
            final(self).entries() == old(self).entries().update(i as int, v),
    {
        match i {
            0 => self.chrome = v,
            1 => self.ie = v,
            2 => self.edge = v,
            3 => self.firefox = v,
            4 => self.safari = v,
            5 => self.node = v,
            6 => self.ios = v,
            7 => self.samsung = v,
            8 => self.opera = v,
            9 => self.android = v,
            10 => self.electron = v,
            _ => self.phantom = v,
        }
        proof {
            assert(final(self).entries() =~= old(self).entries().update(i as int, v));
        }
    }
}

/// Why a versions table was refused.
#[derive(Clone, Copy, Debug, PartialEq, Eq, Structural)]
pub enum VersionsError {
    /// A name that is no known platform.
    UnknownPlatform,
    /// A platform named twice.
    DuplicatePlatform,
    /// A version that does not parse.
    InvalidVersion,
}

/// What `parse_versions` gives for the first `k` pairs.
pub open spec fn versions_prefix(pairs: Seq<(String, String)>, k: nat) -> Result<Seq<Option<Version>>, VersionsError>
    decreases k,
{
    if k == 0 || k > pairs.len() {
        Ok(Seq::new(PLATFORMS as nat, |i: int| None))
    } else {
        match versions_prefix(pairs, (k - 1) as nat) {
            Err(e) => Err(e),
            Ok(es) => {
                let (name, text) = pairs[k - 1];
                match platform_index(name@) {
                    None => Err(VersionsError::UnknownPlatform),
                    Some(i) => if es[i] is Some {
                        Err(VersionsError::DuplicatePlatform)
                    } else {
                        match parsed(text@) {
                            None => Err(VersionsError::InvalidVersion),
                            Some(v) => Ok(es.update(i, Some(v))),
                        }
                    },
                }
            },
        }
    }
}

/// Reads a table of platform names and version texts, such as
/// `[("chrome", "70.0.0")]`; platforms not named get no version.
pub fn parse_versions(pairs: &Vec<(String, String)>) -> (r: Result<Versions, VersionsError>)
    ensures
        match versions_prefix(pairs@, pairs@.len()) {
            Ok(es) => r is Ok && r->Ok_0.entries() == es,
            Err(e) => r == Err::<Versions, VersionsError>(e),
        },
{
    let mut out: Versions = BrowserData {
        chrome: None,
        ie: None,
        edge: None,
        firefox: None,
        safari: None,
        node: None,
        ios: None,
        samsung: None,
        opera: None,
        android: None,
        electron: None,
        phantom: None,
    };
    assert(out.entries() =~= Seq::new(PLATFORMS as nat, |i: int| None::<Version>));
    let mut k: usize = 0;
    while k < pairs.len()
        invariant
            0 <= k <= pairs.len(),
            versions_prefix(pairs@, k as nat) == Ok::<Seq<Option<Version>>, VersionsError>(out.entries()),
        decreases pairs.len() - k,
    {
        let i = match find_platform(&pairs[k].0) {
            Some(i) => i,
            None => {
                proof { lemma_versions_err_stays(pairs@, (k + 1) as nat, pairs@.len()); }
                return Err(VersionsError::UnknownPlatform);
            },
        };
        if out.to_vec()[i].is_some() {
            proof { lemma_versions_err_stays(pairs@, (k + 1) as nat, pairs@.len()); }
            return Err(VersionsError::DuplicatePlatform);
        }
        match parse_version(pairs[k].1.as_str()) {
            Some(v) => {
                out.set(i, Some(v));
            },
            None => {
                proof { lemma_versions_err_stays(pairs@, (k + 1) as nat, pairs@.len()); }
                return Err(VersionsError::InvalidVersion);
            },
        }
        k += 1;
    }
    Ok(out)
}

proof fn lemma_versions_err_stays(pairs: Seq<(String, String)>, n: nat, m: nat)
    requires
        n <= m <= pairs.len(),
        versions_prefix(pairs, n) is Err,
    ensures
        versions_prefix(pairs, m) == versions_prefix(pairs, n),
    decreases m,
{
    if m > n {
        lemma_versions_err_stays(pairs, n, (m - 1) as nat);
    }
}

} // verus!
