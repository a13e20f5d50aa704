use semver::Op as SemverOp;
use semver::Prerelease;
use vstd::prelude::*;

verus! {

/// A semantic version: numeric core plus an optional pre-release identifier.
#[derive(Debug, Clone, PartialEq, Eq)]
pub struct Version {
    pub major: u64,
    pub minor: u64,
    pub patch: u64,
    pub pre: String,
}

/// The mathematical value of a `Version`.
pub struct VersionModel {
    pub major: int,
    pub minor: int,
    pub patch: int,
    pub pre: Seq<char>,
}

impl View for Version {
    type V = VersionModel;

    open spec fn view(&self) -> VersionModel {
        VersionModel {
            major: self.major as int,
            minor: self.minor as int,
            patch: self.patch as int,
            pre: self.pre@,
        }
    }
}

/// What semver's `Version::parse` yields for a text, without build metadata.
pub uninterp spec fn parsed_version(s: Seq<char>) -> Option<VersionModel>;

/// Relies on semver::Version::parse; build metadata is not kept.
#[verifier::external_body]
fn semver_parse_version(s: &str) -> (r: Option<Version>)
    ensures
        match r {
            Some(v) => parsed_version(s@) == Some(v@),
            None => parsed_version(s@) is None,
        },
{
    semver::Version::parse(s).ok().map(
        |v| Version { major: v.major, minor: v.minor, patch: v.patch, pre: v.pre.as_str().to_string() },
    )
}


/// A comparison operator of a requirement: `=`, `>`, `>=`, `<`, `<=`, `~`, `^`, `*`.
#[derive(Debug, Clone, Copy, PartialEq, Eq)]
pub enum Op {
    Exact,
    Greater,
    GreaterEq,
    Less,
    LessEq,
    Tilde,
    Caret,
    Wildcard,
}

/// One comparator of a requirement: an operator and a partial version.
#[derive(Debug, Clone, PartialEq, Eq)]
pub struct Comparator {
    pub op: Op,
    pub major: u64,
    pub minor: Option<u64>,
    pub patch: Option<u64>,
    pub pre: String,
}

/// The mathematical value of a `Comparator`.
pub struct ComparatorModel {
    pub op: Op,
    pub major: int,
    pub minor: Option<int>,
    pub patch: Option<int>,
    pub pre: Seq<char>,
}

pub open spec fn opt_int(o: Option<u64>) -> Option<int> {
    match o {
        Some(x) => Some(x as int),
        None => None,
    }
}

impl View for Comparator {
    type V = ComparatorModel;

    open spec fn view(&self) -> ComparatorModel {
        ComparatorModel {
            op: self.op,
            major: self.major as int,
            minor: opt_int(self.minor),
            patch: opt_int(self.patch),
            pre: self.pre@,
        }
    }
}

/// A version requirement: the comparators that a version must meet.
#[derive(Debug, Clone, PartialEq, Eq)]
pub struct VersionReq {
    pub comparators: Vec<Comparator>,
}

impl View for VersionReq {
    type V = Seq<ComparatorModel>;

    open spec fn view(&self) -> Seq<ComparatorModel> {
        self.comparators@.map_values(|c: Comparator| c@)
    }
}

/// What semver's `VersionReq::parse` yields for a text.
pub uninterp spec fn parsed_requirement(s: Seq<char>) -> Option<Seq<ComparatorModel>>;

/// Whether semver's `VersionReq::matches` accepts a version.
pub uninterp spec fn requirement_admits(r: Seq<ComparatorModel>, v: VersionModel) -> bool;

/// Relies on semver::VersionReq::parse; an operator this library does not know makes it `None`.
#[verifier::external_body]
fn semver_parse_req(s: &str) -> (r: Option<VersionReq>)
    ensures
        match r {
            Some(q) => parsed_requirement(s@) == Some(q@),
            None => parsed_requirement(s@) is None,
        },
{
    let req = semver::VersionReq::parse(s).ok()?;
    let comparators = req.comparators.iter().map(|c| Some(Comparator {
        op: match c.op {
            SemverOp::Exact => Op::Exact, SemverOp::Greater => Op::Greater,
            SemverOp::GreaterEq => Op::GreaterEq, SemverOp::Less => Op::Less,
            SemverOp::LessEq => Op::LessEq, SemverOp::Tilde => Op::Tilde,
            SemverOp::Caret => Op::Caret, SemverOp::Wildcard => Op::Wildcard,
            _ => return None,
        },
        major: c.major, minor: c.minor, patch: c.patch, pre: c.pre.as_str().to_string(),
    })).collect::<Option<Vec<Comparator>>>()?;
    Some(VersionReq { comparators })
}

/// Relies on semver::VersionReq::matches; a pre-release text that semver
/// rejects is read as empty.
#[verifier::external_body]
fn semver_req_matches(q: &VersionReq, v: &Version) -> (r: bool)
    ensures
        r == requirement_admits(q@, v@),
{
    let comparators = q.comparators.iter().map(|c| semver::Comparator {
        op: match c.op {
            Op::Exact => SemverOp::Exact, Op::Greater => SemverOp::Greater,
            Op::GreaterEq => SemverOp::GreaterEq, Op::Less => SemverOp::Less,
            Op::LessEq => SemverOp::LessEq, Op::Tilde => SemverOp::Tilde,
            Op::Caret => SemverOp::Caret, Op::Wildcard => SemverOp::Wildcard,
        },
        major: c.major, minor: c.minor, patch: c.patch,
        pre: Prerelease::new(&c.pre).unwrap_or_default(),
    }).collect();
    let mut sv = semver::Version::new(v.major, v.minor, v.patch);
    sv.pre = Prerelease::new(&v.pre).unwrap_or_default();
    semver::VersionReq { comparators }.matches(&sv)
}

/// Whether semver orders pre-release `a` strictly before pre-release `b`.
pub uninterp spec fn prerelease_precedes(a: Seq<char>, b: Seq<char>) -> bool;

/// Relies on semver's `Ord for Prerelease`, a total order, so `<` is
/// asymmetric and transitive.
#[verifier::external_body]
fn semver_prerelease_lt(a: &str, b: &str) -> (r: bool)
    ensures
        r == prerelease_precedes(a@, b@),
        r ==> !prerelease_precedes(b@, a@),
        r ==> forall|c: Seq<char>|
            prerelease_precedes(c, a@) ==> #[trigger] prerelease_precedes(c, b@),
{
    Prerelease::new(a).unwrap_or_default() < Prerelease::new(b).unwrap_or_default()
}

/// The text that semver's `Display for Version` writes.
pub uninterp spec fn version_text(v: VersionModel) -> Seq<char>;

/// The decimal digits of a number, without leading zeros.
pub open spec fn decimal(n: nat) -> Seq<char>
    decreases n,
{
    if n < 10 {
        seq![seq!['0', '1', '2', '3', '4', '5', '6', '7', '8', '9'][n as int]]
    } else {
        decimal(n / 10) + seq![seq!['0', '1', '2', '3', '4', '5', '6', '7', '8', '9'][(n % 10) as int]]
    }
}

/// `major.minor.patch` in decimal.
pub open spec fn release_text(v: VersionModel) -> Seq<char> {
    decimal(v.major as nat) + "."@ + decimal(v.minor as nat) + "."@ + decimal(v.patch as nat)
}

/// Relies on semver's `Display for Version`: the three numbers, then `-` and
/// the pre-release when there is one. A pre-release text that semver rejects
/// is read as empty, hence the second case for a non-empty one.
#[verifier::external_body]
fn semver_version_string(v: &Version) -> (r: String)
    ensures
        r@ == version_text(v@),
        v@.pre.len() == 0 ==> r@ == release_text(v@),
        v@.pre.len() > 0 ==> r@ == release_text(v@) + "-"@ + v@.pre || r@ == release_text(v@),
{
    let mut sv = semver::Version::new(v.major, v.minor, v.patch);
    sv.pre = Prerelease::new(&v.pre).unwrap_or_default();
    sv.to_string()
}

/// Whether `pat` occurs in `s` at position `i`.
fn occurs_at(s: &str, pat: &str, i: usize) -> (r: bool)
    requires
        i + pat@.len() <= s@.len(),
    ensures
        r == (s@.subrange(i as int, i + pat@.len()) == pat@),
{
    let n = s.unicode_len();
    let m = pat.unicode_len();
    let mut j: usize = 0;
    while j < m
        invariant
            n == s@.len(),
            m == pat@.len(),
            i + m <= s@.len(),
            0 <= j <= m,
            forall|k: int| 0 <= k < j ==> s@[i + k] == pat@[k],
        decreases m - j,
    {
        if s.get_char(i + j) != pat.get_char(j) {
            assert(s@.subrange(i as int, i + m)[j as int] != pat@[j as int]);
            return false;
        }
        j += 1;
    }
    assert(s@.subrange(i as int, i + m) =~= pat@);
    true
}

/// Whether `pat` occurs in `s` as a run of characters.
pub(crate) fn contains_text(s: &str, pat: &str) -> (r: bool)
    ensures
        r == occurs_in(pat@, s@),
{
    let n = s.unicode_len();
    let m = pat.unicode_len();
    if m > n {
        return false;
    }
    let mut i: usize = 0;
    loop
        invariant
            n == s@.len(),
            m == pat@.len(),
            m <= n,
            0 <= i <= n - m,
            forall|k: int| 0 <= k < i ==> #[trigger] s@.subrange(k, k + m) != pat@,
        decreases n - m - i,
    {
        if occurs_at(s, pat, i) {
            return true;
        }
        if i == n - m {
            return false;
        }
        i += 1;
    }
}

/// Whether `pat` occurs as a contiguous part of `s`.
pub open spec fn occurs_in(pat: Seq<char>, s: Seq<char>) -> bool {
    exists|i: int| 0 <= i && i + pat.len() <= s.len() && #[trigger] s.subrange(i, i + pat.len()) == pat
}

impl Version {
    /// Parses a semantic version; `None` when semver rejects the text.
    pub fn parse(s: &str) -> (r: Option<Version>)
        ensures
            match r {
                Some(v) => parsed_version(s@) == Some(v@),
                None => parsed_version(s@) is None,
            },
    {
        semver_parse_version(s)
    }

    /// A copy with the same value.
    pub fn duplicate(&self) -> (r: Version)
        ensures
            r@ == self@,
    {
        Version { major: self.major, minor: self.minor, patch: self.patch, pre: self.pre.clone() }
    }

    /// Whether two versions are the same version.
    pub fn same_as(&self, other: &Version) -> (r: bool)
        ensures
            r == (self@ == other@),
    {
        self.major == other.major && self.minor == other.minor && self.patch == other.patch
            && self.pre == other.pre
    }

    /// Whether `self` comes strictly before `other` in semantic version order.
    pub fn precedes(&self, other: &Version) -> (r: bool)
        ensures
            r == version_precedes(self@, other@),
            r ==> !version_precedes(other@, self@),
            r ==> forall|c: VersionModel|
                version_precedes(c, self@) ==> #[trigger] version_precedes(c, other@),
    {
        if self.major != other.major {
            self.major < other.major
        } else if self.minor != other.minor {
            self.minor < other.minor
        } else if self.patch != other.patch {
            self.patch < other.patch
        } else {
            semver_prerelease_lt(self.pre.as_str(), other.pre.as_str())
        }
    }

    /// The canonical text of the version, as semver writes it.
    pub fn to_text(&self) -> (r: String)
        ensures
            r@ == version_text(self@),
            self@.pre.len() == 0 ==> r@ == release_text(self@),
            self@.pre.len() > 0 ==> r@ == release_text(self@) + "-"@ + self@.pre || r@ == release_text(self@),
    {
        semver_version_string(self)
    }
}

/// Semantic version order: numeric major, minor and patch, then pre-release
/// precedence.
pub open spec fn version_precedes(a: VersionModel, b: VersionModel) -> bool {
    if a.major != b.major {
        a.major < b.major
    } else if a.minor != b.minor {
        a.minor < b.minor
    } else if a.patch != b.patch {
        a.patch < b.patch
    } else {
        prerelease_precedes(a.pre, b.pre)
    }
}

impl Comparator {
    /// A copy with the same value.
    pub fn duplicate(&self) -> (r: Comparator)
        ensures
            r@ == self@,
    {
        Comparator {
            op: self.op,
            major: self.major,
            minor: self.minor,
            patch: self.patch,
            pre: self.pre.clone(),
        }
    }
}

impl VersionReq {
    /// Parses a requirement such as `^1.2` or `>=1.0.0, <2.0.0`.
    pub fn parse(s: &str) -> (r: Option<VersionReq>)
        ensures
            match r {
                Some(q) => parsed_requirement(s@) == Some(q@),
                None => parsed_requirement(s@) is None,
            },
    {
        semver_parse_req(s)
    }

    /// A copy with the same value.
    pub fn duplicate(&self) -> (r: VersionReq)
        ensures
            r@ == self@,
    {
        let mut comparators: Vec<Comparator> = Vec::new();
        let mut i: usize = 0;
        while i < self.comparators.len()
            invariant
                0 <= i <= self.comparators.len(),
                comparators@.map_values(|c: Comparator| c@) =~= self.comparators@.subrange(
                    0,
                    i as int,
                ).map_values(|c: Comparator| c@),
            decreases self.comparators.len() - i,
        {
            let c = self.comparators[i].duplicate();
            let ghost before = comparators@;
            comparators.push(c);
            proof {
                let f = |c: Comparator| c@;
                assert(self.comparators@.subrange(0, i + 1) =~= self.comparators@.subrange(
                    0,
                    i as int,
                ).push(self.comparators@[i as int]));
                assert(comparators@.map_values(f) =~= before.map_values(f).push(f(c)));
                assert(self.comparators@.subrange(0, i + 1).map_values(f) =~= self.comparators@.subrange(
                    0,
                    i as int,
                ).map_values(f).push(f(self.comparators@[i as int])));
            }
            i += 1;
        }
        assert(self.comparators@.subrange(0, i as int) =~= self.comparators@);
        VersionReq { comparators }
    }

    /// Whether semver's own requirement matching accepts `v`.
    pub fn admits(&self, v: &Version) -> (r: bool)
        ensures
            r == requirement_admits(self@, v@),
    {
        semver_req_matches(self, v)
    }
}

} // verus!
