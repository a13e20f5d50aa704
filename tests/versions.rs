use version_manager::train::{matches_exact, ReleaseTrain};
use version_manager::version::{Version, VersionReq};

fn v(s: &str) -> Version {
    Version::parse(s).unwrap()
}

fn req(s: &str) -> VersionReq {
    VersionReq::parse(s).unwrap()
}

#[test]
fn parse_reads_all_parts() {
    let x = v("1.2.3-nightly-2023-09-01");
    assert_eq!((x.major, x.minor, x.patch), (1, 2, 3));
    assert_eq!(x.pre, "nightly-2023-09-01");
    assert!(Version::parse("not a version").is_none());
    assert!(Version::parse("1.2").is_none());
}

#[test]
fn text_is_canonical() {
    assert_eq!(v("0.3.0-nightly-2023-09-28").to_text(), "0.3.0-nightly-2023-09-28");
    assert_eq!(v("10.0.1").to_text(), "10.0.1");
}

#[test]
fn order_is_semantic_not_lexicographic() {
    assert!(v("0.9.0").precedes(&v("0.10.0")));
    assert!(!v("0.10.0").precedes(&v("0.9.0")));
    assert!(v("1.0.0-alpha").precedes(&v("1.0.0")));
    assert!(v("0.3.0-nightly-2023-01-01").precedes(&v("0.3.0-nightly-2023-02-01")));
    assert!(!v("1.0.0").precedes(&v("1.0.0")));
}

#[test]
fn same_as_compares_values() {
    assert!(v("1.2.3").same_as(&v("1.2.3")));
    assert!(!v("1.2.3").same_as(&v("1.2.3-nightly-2023-09-01")));
}

#[test]
fn distinct_prerelease_never_matches_exactly() {
    let r = req(">=0.0.0-nightly-2023-01-01");
    assert!(!matches_exact(&r, &v("0.0.0-nightly-2023-01-02")));
    assert!(!matches_exact(&r, &v("1.0.0-internal-x")));
    assert!(!matches_exact(&r, &v("1.0.0")));
    assert!(matches_exact(&r, &v("0.0.0-nightly-2023-01-01")));
}

#[test]
fn plain_range_does_not_take_prerelease() {
    assert!(!matches_exact(&req(">=1.2.0"), &v("1.3.0-nightly-2023-09-01")));
    assert!(matches_exact(&req(">=1.2.0"), &v("1.3.0")));
}

#[test]
fn caret_matches_plainly() {
    assert!(matches_exact(&req("^1.0.0"), &v("1.0.0")));
    assert!(matches_exact(&req("^1.0.0"), &v("1.1.0")));
    assert!(!matches_exact(&req("^1.0.0"), &v("2.0.0")));
    assert!(!matches_exact(&req("^2.0.0"), &v("1.1.0")));
}

#[test]
fn empty_requirement_matches_releases_only() {
    let any = req("*");
    assert!(matches_exact(&any, &v("3.1.4")));
    assert!(!matches_exact(&any, &v("3.1.4-nightly-2023-09-01")));
}

#[test]
fn classify_by_prerelease() {
    assert_eq!(ReleaseTrain::from_version(&v("1.0.0")), ReleaseTrain::Stable);
    assert_eq!(ReleaseTrain::from_version(&v("0.2.0-nightly-2023-01-01")), ReleaseTrain::Nightly);
    assert_eq!(ReleaseTrain::from_version(&v("0.2.0-internal-x")), ReleaseTrain::Internal);
    let x = v("0.2.0-nightly-2023-01-01");
    assert_eq!(ReleaseTrain::from_version(&x), ReleaseTrain::from_version(&x));
}

#[test]
fn classify_requirement_by_first_comparator() {
    assert_eq!(ReleaseTrain::from_version_req(&req("^1.0.0")), ReleaseTrain::Stable);
    assert_eq!(ReleaseTrain::from_version_req(&req("=0.3.0-nightly-2023-09-28")), ReleaseTrain::Nightly);
    assert_eq!(ReleaseTrain::from_version_req(&req("=0.3.0-rc.1")), ReleaseTrain::Internal);
    assert_eq!(ReleaseTrain::from_version_req(&VersionReq { comparators: Vec::new() }), ReleaseTrain::Stable);
}

#[test]
fn other_operators_match_as_semver_does() {
    assert!(matches_exact(&req("~1.2.3"), &v("1.2.9")));
    assert!(!matches_exact(&req("~1.2.3"), &v("1.3.0")));
    assert!(matches_exact(&req("<2"), &v("1.9.9")));
    assert!(!matches_exact(&req("<2"), &v("2.0.0")));
    assert!(matches_exact(&req("=1.0.0"), &v("1.0.0")));
    assert!(!matches_exact(&req("=1.0.0"), &v("1.0.1")));
    assert!(matches_exact(&req("1.2.*"), &v("1.2.7")));
    assert!(matches_exact(&req(">1.0.0, <=1.5.0"), &v("1.5.0")));
    assert!(!matches_exact(&req(">1.0.0, <=1.5.0"), &v("1.0.0")));
}

#[test]
fn requirement_parse_keeps_comparators() {
    let r = req(">=1.0.0, <2.0.0-rc.1");
    assert_eq!(r.comparators.len(), 2);
    assert_eq!(r.comparators[0].op, version_manager::version::Op::GreaterEq);
    assert_eq!(r.comparators[1].op, version_manager::version::Op::Less);
    assert_eq!(r.comparators[1].pre, "rc.1");
    assert_eq!(r.comparators[0].minor, Some(0));
    assert!(VersionReq::parse("not a requirement").is_none());
}

#[test]
fn every_comparator_is_held_to_the_prerelease() {
    assert!(!matches_exact(&req(">=1.0.0-alpha, <2.0.0"), &v("1.0.0-alpha")));
    assert!(!matches_exact(&req(">=0.1.0, =1.0.0-alpha"), &v("1.0.0-alpha")));
    assert!(matches_exact(&req("=1.0.0-alpha"), &v("1.0.0-alpha")));
    assert!(matches_exact(&req(">=1.0.0, <2.0.0"), &v("1.4.2")));
}
