use crate::version::{
    occurs_in, requirement_admits, ComparatorModel, Version, VersionModel, VersionReq,
};
use vstd::prelude::*;

verus! {

/// The release train of a version, read from its pre-release identifier.
#[derive(Debug, Clone, Copy, PartialEq, Eq, Structural)]
pub enum ReleaseTrain {
    Stable,
    Nightly,
    Internal,
}

/// Train of a pre-release identifier: none is Stable, one that contains
/// `nightly` is Nightly, any other is Internal.
pub open spec fn train_of_pre(pre: Seq<char>) -> ReleaseTrain {
    if pre.len() == 0 {
        ReleaseTrain::Stable
    } else if occurs_in("nightly"@, pre) {
        ReleaseTrain::Nightly
    } else {
        ReleaseTrain::Internal
    }
}

pub open spec fn train_of(v: VersionModel) -> ReleaseTrain {
    train_of_pre(v.pre)
}

/// Train of a requirement: that of its first comparator, Stable when it has none.
pub open spec fn train_of_requirement(cs: Seq<ComparatorModel>) -> ReleaseTrain {
    if cs.len() == 0 {
        ReleaseTrain::Stable
    } else {
        train_of_pre(cs[0].pre)
    }
}

impl ReleaseTrain {
    pub fn from_version(version: &Version) -> (r: ReleaseTrain)
        ensures
            r == train_of(version@),
    {
        if version.pre.as_str().is_empty() {
            ReleaseTrain::Stable
        } else if crate::version::contains_text(version.pre.as_str(), "nightly") {
            ReleaseTrain::Nightly
        } else {
            ReleaseTrain::Internal
        }
    }

    pub fn from_version_req(version_req: &VersionReq) -> (r: ReleaseTrain)
        ensures
            r == train_of_requirement(version_req@),
    {
        if version_req.comparators.len() == 0 {
            return ReleaseTrain::Stable;
        }
        let comp = &version_req.comparators[0];
        if comp.pre.as_str().is_empty() {
            ReleaseTrain::Stable
        } else if crate::version::contains_text(comp.pre.as_str(), "nightly") {
            ReleaseTrain::Nightly
        } else {
            ReleaseTrain::Internal
        }
    }
}

/// One comparator under exact matching: semver's match of that comparator
/// and equal pre-release texts. Where neither side has a pre-release, the
/// texts are equal (both empty) and this is semver's range match.
pub open spec fn comparator_exact(c: ComparatorModel, v: VersionModel) -> bool {
    requirement_admits(seq![c], v) && c.pre == v.pre
}

/// Exact matching: every comparator matches exactly; a requirement without
/// comparators is semver's own (`*`).
pub open spec fn matches_exact_spec(cs: Seq<ComparatorModel>, v: VersionModel) -> bool {
    if cs.len() == 0 {
        requirement_admits(cs, v)
    } else {
        forall|i: int| 0 <= i < cs.len() ==> comparator_exact(#[trigger] cs[i], v)
    }
}

/// Matches `version` against `version_req`, where a pre-release on either
/// side of a comparator only ever matches the same pre-release.
pub fn matches_exact(version_req: &VersionReq, version: &Version) -> (r: bool)
    ensures
        r == matches_exact_spec(version_req@, version@),
{
    let n = version_req.comparators.len();
    if n == 0 {
        return version_req.admits(version);
    }
    let mut i: usize = 0;
    while i < n
        invariant
            n == version_req.comparators.len(),
            n > 0,
            0 <= i <= n,
            forall|j: int| 0 <= j < i ==> comparator_exact(#[trigger] version_req@[j], version@),
        decreases n - i,
    {
        let comp = &version_req.comparators[i];
        let single = VersionReq { comparators: vec![comp.duplicate()] };
        assert(single@ =~= seq![version_req@[i as int]]);
        if !(single.admits(version) && comp.pre == version.pre) {
            return false;
        }
        i += 1;
    }
    true
}

/// A train is a function of the version alone, and a version without a
/// pre-release is always Stable.
pub proof fn lemma_train_is_stable_function(v1: Version, v2: Version)
    requires
        v1@ == v2@,
    ensures
        train_of(v1@) == train_of(v2@),
        v1@.pre.len() == 0 ==> train_of(v1@) == ReleaseTrain::Stable,
{
}

/// Where some comparator and the version have different pre-release texts
/// (one of them not empty), exact matching fails, whatever a plain range
/// match would say.
pub proof fn lemma_distinct_prerelease_never_matches(version_req: VersionReq, version: Version, i: int)
    requires
        0 <= i < version_req@.len(),
        version_req@[i].pre != version@.pre,
    ensures
        !matches_exact_spec(version_req@, version@),
{
    assert(!comparator_exact(version_req@[i], version@));
}

} // verus!
