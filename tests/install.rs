use version_manager::catalog::{Build, Os, RuntimeVersion};
use version_manager::environment::PackagePath;
use version_manager::install::{ambient_api_dependency, AmbientApiDependency, InstallError, InstallStep};
use version_manager::version::Version;

fn rv() -> RuntimeVersion {
    RuntimeVersion {
        version: Version::parse("0.3.0").unwrap(),
        builds: vec![
            Build { os: Os::Linux, url: "https://dl/linux.zip".to_string() },
            Build { os: Os::Macos, url: "https://dl/mac.zip".to_string() },
        ],
    }
}

#[test]
fn installed_version_needs_nothing() {
    let r = rv();
    assert_eq!(r.plan_install(Os::Linux, true), Ok(InstallStep::AlreadyInstalled));
    assert_eq!(r.plan_install(Os::Windows, true), Ok(InstallStep::AlreadyInstalled));
    assert_eq!(r.dir_name(), rv().dir_name());
}

#[test]
fn missing_version_downloads_its_build() {
    let r = rv();
    assert_eq!(r.plan_install(Os::Macos, false), Ok(InstallStep::Download("https://dl/mac.zip".to_string())));
    assert_eq!(r.download_url(Os::Linux), Ok("https://dl/linux.zip".to_string()));
}

#[test]
fn no_build_for_platform() {
    assert_eq!(rv().plan_install(Os::Windows, false), Err(InstallError::NoBuildForOs));
    let bare = RuntimeVersion::without_builds(Version::parse("1.0.0").unwrap());
    assert_eq!(bare.download_url(Os::Linux), Err(InstallError::NoBuildForOs));
}

#[test]
fn directory_named_by_version() {
    let r = RuntimeVersion::without_builds(Version::parse("0.3.0-nightly-2023-09-28").unwrap());
    assert_eq!(r.dir_name(), "0.3.0-nightly-2023-09-28");
}

#[test]
fn api_dependency_for_release_and_prerelease() {
    assert_eq!(
        ambient_api_dependency(&Version::parse("0.4.0").unwrap()),
        AmbientApiDependency::Registry("0.4.0".to_string())
    );
    assert_eq!(
        ambient_api_dependency(&Version::parse("0.3.0-nightly-2023-09-28").unwrap()),
        AmbientApiDependency::Git {
            repository: "https://github.com/AmbientRun/Ambient.git".to_string(),
            tag: "v0.3.0-nightly-2023-09-28".to_string(),
        }
    );
}

#[test]
fn package_path_from_arguments() {
    let args = |xs: &[&str]| xs.iter().map(|x| x.to_string()).collect::<Vec<String>>();
    assert!(PackagePath::from_args(&args(&["run", "my/pkg"])).is_some());
    assert!(PackagePath::from_args(&args(&["run", "--release"])).is_none());
    assert!(PackagePath::from_args(&args(&["run"])).is_none());
    let p = PackagePath::from_args(&args(&["run", "pkg"])).unwrap();
    assert_eq!(p.0, std::path::PathBuf::from("pkg"));
    assert_eq!(p.ambient_toml().0, std::path::Path::new("pkg").join("ambient.toml"));
    assert_eq!(p.cargo_toml().0, std::path::Path::new("pkg").join("Cargo.toml"));
}

#[test]
fn train_predicates_of_runtime_versions() {
    let of = |s: &str| RuntimeVersion::without_builds(Version::parse(s).unwrap());
    let stable = of("1.0.0");
    let nightly = of("1.0.0-nightly-2023-09-01");
    let internal = of("1.0.0-internal-x");
    assert!(stable.is_point_release() && stable.is_public() && !stable.is_nightly());
    assert!(nightly.is_nightly() && nightly.is_public() && !nightly.is_point_release());
    assert!(!internal.is_public() && !internal.is_nightly() && !internal.is_point_release());
}
