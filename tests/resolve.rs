use version_manager::catalog::{versions_from_listing, ListingItem, RuntimeVersion, VersionsFilter};
use version_manager::resolve::{
    default_settles,
    get_current_runtime, get_latest_remote_version_for_train, get_version_satisfying_req, installed_from_names, needs_catalog,
    resolve_in_catalog, resolve_locally, train_filter, ResolveError, Settings,
};
use version_manager::train::ReleaseTrain;
use version_manager::version::{Version, VersionReq};

fn v(s: &str) -> Version {
    Version::parse(s).unwrap()
}

fn req(s: &str) -> VersionReq {
    VersionReq::parse(s).unwrap()
}

fn catalog(versions: &[&str]) -> Vec<RuntimeVersion> {
    let items: Vec<ListingItem> = versions
        .iter()
        .map(|x| ListingItem { name: format!("ambient-builds/{x}/ubuntu-22.04/a.zip"), media_link: format!("u/{x}") })
        .collect();
    versions_from_listing(&items, VersionsFilter { include_private: true, include_nightly: true }).unwrap()
}

fn settings(default: &str) -> Settings {
    Settings { default_runtime: Some(v(default)) }
}

#[test]
fn default_wins_without_catalog() {
    let s = settings("1.0.0");
    let installed = vec![v("0.9.0"), v("1.0.0")];
    let local = resolve_locally(&s, &req("^1.0.0"), &installed).unwrap();
    assert_eq!(local.version.to_text(), "1.0.0");
    assert!(local.builds.is_empty());
    assert!(!needs_catalog(&s, &Some(req("^1.0.0")), &installed));
    let full = get_version_satisfying_req(&s, &req("^1.0.0"), &installed, &catalog(&["0.9.0", "1.0.0", "1.1.0"]));
    assert_eq!(full.unwrap().version.to_text(), "1.0.0");
}

#[test]
fn unsatisfiable_after_all_sources() {
    let s = settings("1.0.0");
    let installed = vec![v("0.9.0"), v("1.0.0")];
    assert!(resolve_locally(&s, &req("^2.0.0"), &installed).is_none());
    assert!(needs_catalog(&s, &Some(req("^2.0.0")), &installed));
    let c = catalog(&["0.9.0", "1.0.0", "1.1.0"]);
    assert_eq!(resolve_in_catalog(&req("^2.0.0"), &c).unwrap_err(), ResolveError::NoSatisfyingVersion);
    assert_eq!(
        get_version_satisfying_req(&s, &req("^2.0.0"), &installed, &c).unwrap_err(),
        ResolveError::NoSatisfyingVersion
    );
}

#[test]
fn installed_then_lowest_in_catalog() {
    let s = Settings::empty();
    let installed = vec![v("0.9.0"), v("1.0.5")];
    let found = get_version_satisfying_req(&s, &req("^1.0.0"), &installed, &Vec::new()).unwrap();
    assert_eq!(found.version.to_text(), "1.0.5");
    let c = catalog(&["1.2.0", "1.1.0", "2.0.0"]);
    let found = get_version_satisfying_req(&s, &req("^1.0.0"), &Vec::new(), &c).unwrap();
    assert_eq!(found.version.to_text(), "1.1.0");
    assert_eq!(found.builds.len(), 1);
}

#[test]
fn latest_nightly_is_semantic() {
    let c = catalog(&["0.3.0-nightly-2023-01-01", "0.3.0-nightly-2023-02-01", "0.4.0"]);
    let got = get_latest_remote_version_for_train(ReleaseTrain::Nightly, false, &c).unwrap();
    assert_eq!(got.version.to_text(), "0.3.0-nightly-2023-02-01");
}

#[test]
fn latest_stable_and_fallback() {
    let c = catalog(&["0.3.0-nightly-2023-01-01", "0.3.0-nightly-2023-02-01"]);
    assert_eq!(
        get_latest_remote_version_for_train(ReleaseTrain::Stable, false, &c).unwrap_err(),
        ResolveError::NoVersionsForTrain
    );
    let got = get_latest_remote_version_for_train(ReleaseTrain::Stable, true, &c).unwrap();
    assert_eq!(got.version.to_text(), "0.3.0-nightly-2023-02-01");
    let c = catalog(&["0.10.0", "0.9.0"]);
    let got = get_latest_remote_version_for_train(ReleaseTrain::Stable, false, &c).unwrap();
    assert_eq!(got.version.to_text(), "0.10.0");
}

#[test]
fn filter_for_train() {
    let f = train_filter(ReleaseTrain::Internal, false);
    assert!(f.include_private && !f.include_nightly);
    let f = train_filter(ReleaseTrain::Stable, true);
    assert!(!f.include_private && f.include_nightly);
    let f = train_filter(ReleaseTrain::Nightly, false);
    assert!(!f.include_private && f.include_nightly);
}

#[test]
fn current_runtime_sources() {
    let none = Settings::empty();
    assert_eq!(
        get_current_runtime(&none, &None, &Vec::new(), &Vec::new()).unwrap_err(),
        ResolveError::NoDefaultSet
    );
    let s = settings("0.2.0");
    let got = get_current_runtime(&s, &None, &Vec::new(), &Vec::new()).unwrap();
    assert_eq!(got.version.to_text(), "0.2.0");
    let got = get_current_runtime(&s, &Some(req("^0.3")), &vec![v("0.3.1")], &Vec::new()).unwrap();
    assert_eq!(got.version.to_text(), "0.3.1");
}

#[test]
fn settings_train_and_default() {
    let mut s = Settings::empty();
    assert_eq!(s.release_train(), ReleaseTrain::Stable);
    s.set_default(&v("0.3.0-nightly-2023-09-28"));
    assert_eq!(s.release_train(), ReleaseTrain::Nightly);
    assert_eq!(s.default_runtime.unwrap().to_text(), "0.3.0-nightly-2023-09-28");
}

#[test]
fn installed_names_parse_in_order() {
    let names = vec!["0.9.0".to_string(), "1.0.0-nightly-2023-09-01".to_string()];
    let got = installed_from_names(&names).unwrap();
    assert_eq!(got[0].to_text(), "0.9.0");
    assert_eq!(got[1].to_text(), "1.0.0-nightly-2023-09-01");
    assert!(installed_from_names(&vec!["0.9.0".to_string(), "tmp".to_string()]).is_none());
    assert!(installed_from_names(&Vec::new()).unwrap().is_empty());
}

#[test]
fn default_alone_settles_when_it_matches() {
    let s = settings("1.0.0");
    assert!(default_settles(&s, &Some(req("^1.0.0"))));
    assert!(!default_settles(&s, &Some(req("^2.0.0"))));
    assert!(default_settles(&s, &None));
    assert!(!default_settles(&Settings::empty(), &Some(req("^1.0.0"))));
    let got = get_current_runtime(&s, &Some(req("^1.0.0")), &Vec::new(), &Vec::new()).unwrap();
    assert_eq!(got.version.to_text(), "1.0.0");
}
