use version_manager::catalog::{
    get_version, path_segment, version_from_path, versions_from_listing, CatalogError, ListingItem, Os,
    VersionsFilter,
};

fn item(name: &str) -> ListingItem {
    ListingItem { name: name.to_string(), media_link: format!("https://dl/{name}") }
}

fn names(vs: &[version_manager::catalog::RuntimeVersion]) -> Vec<String> {
    vs.iter().map(|r| r.version.to_text()).collect()
}

const ALL: VersionsFilter = VersionsFilter { include_private: true, include_nightly: true };

#[test]
fn segments_of_a_key() {
    assert_eq!(path_segment("ambient-builds/1.2.3/ubuntu-22.04/a.zip", 1).as_deref(), Some("1.2.3"));
    assert_eq!(path_segment("ambient-builds/1.2.3/ubuntu-22.04/a.zip", 2).as_deref(), Some("ubuntu-22.04"));
    assert_eq!(path_segment("ambient-builds", 0).as_deref(), Some("ambient-builds"));
    assert_eq!(path_segment("ambient-builds", 1), None);
    assert_eq!(path_segment("a//b", 1).as_deref(), Some(""));
}

#[test]
fn version_from_key() {
    assert_eq!(version_from_path("ambient-builds/0.3.0/macos-latest/x.zip").unwrap().to_text(), "0.3.0");
    assert!(version_from_path("ambient-builds/readme.txt").is_none());
    assert!(version_from_path("nothing").is_none());
}

#[test]
fn os_tokens_round_trip() {
    for os in [Os::Macos, Os::Windows, Os::Linux] {
        assert_eq!(Os::from_token(os.token()), Some(os));
    }
    assert_eq!(Os::from_token("freebsd"), None);
    assert_eq!(Os::current("macos"), Os::Macos);
    assert_eq!(Os::current("windows"), Os::Windows);
    assert_eq!(Os::current("linux"), Os::Linux);
    assert_eq!(Os::Windows.ambient_bin_name(), "ambient.exe");
    assert_eq!(Os::Linux.ambient_bin_name(), "ambient");
}

#[test]
fn filter_keeps_only_stable() {
    let items = vec![
        item("ambient-builds/0.1.0/ubuntu-22.04/a.zip"),
        item("ambient-builds/0.2.0-nightly-2023-01-01/ubuntu-22.04/a.zip"),
        item("ambient-builds/0.2.0-internal-x/ubuntu-22.04/a.zip"),
    ];
    let none = VersionsFilter { include_private: false, include_nightly: false };
    assert_eq!(names(&versions_from_listing(&items, none).unwrap()), vec!["0.1.0"]);
    let nightly = VersionsFilter { include_private: false, include_nightly: true };
    assert_eq!(
        names(&versions_from_listing(&items, nightly).unwrap()),
        vec!["0.1.0", "0.2.0-nightly-2023-01-01"]
    );
    assert_eq!(
        names(&versions_from_listing(&items, ALL).unwrap()),
        vec!["0.1.0", "0.2.0-internal-x", "0.2.0-nightly-2023-01-01"]
    );
}

#[test]
fn grouping_is_by_equal_version() {
    let items = vec![
        item("ambient-builds/1.2.3/ubuntu-22.04/a.zip"),
        item("ambient-builds/1.2.3-nightly-2023-09-01/macos-latest/a.zip"),
        item("ambient-builds/1.2.3/windows-latest/a.zip"),
        item("ambient-builds/index.html"),
    ];
    let vs = versions_from_listing(&items, ALL).unwrap();
    assert_eq!(names(&vs), vec!["1.2.3-nightly-2023-09-01", "1.2.3"]);
    assert_eq!(vs[1].builds.len(), 2);
    assert_eq!(vs[1].builds[0].os, Os::Linux);
    assert_eq!(vs[1].builds[1].os, Os::Windows);
    assert_eq!(vs[1].builds[1].url, "https://dl/ambient-builds/1.2.3/windows-latest/a.zip");
    assert_eq!(vs[0].builds.len(), 1);
}

#[test]
fn sorted_semantically() {
    let items = vec![
        item("ambient-builds/0.10.0/ubuntu-22.04/a.zip"),
        item("ambient-builds/0.9.0/ubuntu-22.04/a.zip"),
        item("ambient-builds/0.9.1/ubuntu-22.04/a.zip"),
    ];
    assert_eq!(names(&versions_from_listing(&items, ALL).unwrap()), vec!["0.9.0", "0.9.1", "0.10.0"]);
}

#[test]
fn unknown_os_is_invalid() {
    let items = vec![item("ambient-builds/0.1.0/ubuntu-22.04/a.zip"), item("ambient-builds/0.1.0/plan9/a.zip")];
    assert_eq!(versions_from_listing(&items, ALL).unwrap_err(), CatalogError::InvalidBuildArtifact);
    let missing = vec![item("ambient-builds/0.1.0")];
    assert_eq!(versions_from_listing(&missing, ALL).unwrap_err(), CatalogError::InvalidBuildArtifact);
}

#[test]
fn empty_listing_gives_empty_catalog() {
    assert!(versions_from_listing(&Vec::new(), ALL).unwrap().is_empty());
}

#[test]
fn single_version_is_exact() {
    let items = vec![
        item("ambient-builds/1.2.3/ubuntu-22.04/a.zip"),
        item("ambient-builds/1.2.3-nightly-2023-09-01/ubuntu-22.04/a.zip"),
    ];
    let catalog = versions_from_listing(&items, ALL).unwrap();
    assert_eq!(get_version("1.2.3", &catalog).unwrap().version.to_text(), "1.2.3");
    assert_eq!(get_version("1.2.4", &catalog).unwrap_err(), CatalogError::VersionNotFound);
    assert_eq!(get_version("garbage", &catalog).unwrap_err(), CatalogError::VersionNotFound);
}
