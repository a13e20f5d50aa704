use crate::catalog::{Build, BuildModel, Os, RuntimeVersion, RuntimeVersionModel};
use crate::environment::{join_path, path_join, runtimes_dir, EnvError};
use crate::version::{version_text, Version};
use std::path::PathBuf;
use vstd::prelude::*;

verus! {

/// The url of the first build for platform `os` from position `i` on.
pub open spec fn build_url_from(builds: Seq<BuildModel>, os: Os, i: int) -> Option<Seq<char>>
    decreases builds.len() - i,
{
    if i < 0 || i >= builds.len() {
        None
    } else if builds[i].os == os {
        Some(builds[i].url)
    } else {
        build_url_from(builds, os, i + 1)
    }
}

pub open spec fn build_url(builds: Seq<BuildModel>, os: Os) -> Option<Seq<char>> {
    build_url_from(builds, os, 0)
}

/// What installing a version takes.
#[derive(Debug, Clone, PartialEq, Eq)]
pub enum InstallStep {
    /// The executable is in place: nothing to fetch.
    AlreadyInstalled,
    /// Fetch the archive at this url and extract it into the version's directory.
    Download(String),
}

/// Why a version cannot be installed.
#[derive(Debug, Clone, Copy, PartialEq, Eq, Structural)]
pub enum InstallError {
    /// The version has no build for this platform.
    NoBuildForOs,
}

/// The plan in mathematical form: `None` where no build fits, `Some(None)`
/// where nothing is to be fetched, `Some(Some(url))` for a download.
pub open spec fn install_plan(rv: RuntimeVersionModel, os: Os, exe_exists: bool) -> Option<Option<Seq<char>>> {
    if exe_exists {
        Some(None)
    } else {
        match build_url(rv.builds, os) {
            Some(u) => Some(Some(u)),
            None => None,
        }
    }
}

pub open spec fn plan_of(r: Result<InstallStep, InstallError>) -> Option<Option<Seq<char>>> {
    match r {
        Ok(InstallStep::AlreadyInstalled) => Some(None),
        Ok(InstallStep::Download(u)) => Some(Some(u@)),
        Err(_) => None,
    }
}

impl RuntimeVersion {
    /// The name of the version's directory: its canonical text.
    pub fn dir_name(&self) -> (r: String)
        ensures
            r@ == version_text(self.version@),
    {
        self.version.to_text()
    }

    /// The version's directory under the runtimes directory.
    pub fn dir_path(&self) -> (r: Result<PathBuf, EnvError>)
        ensures
            r is Ok ==> exists|runtimes: PathBuf|
                r->Ok_0 == path_join(runtimes, version_text(self.version@)),
    {
        let base = runtimes_dir()?;
        Ok(join_path(&base, self.dir_name().as_str()))
    }

    /// The runtime executable inside the version's directory.
    pub fn exe_path(&self, os: Os) -> (r: Result<PathBuf, EnvError>)
        ensures
            r is Ok ==> exists|runtimes: PathBuf|
                r->Ok_0 == path_join(
                    path_join(runtimes, version_text(self.version@)),
                    if os == Os::Windows {
                        "ambient.exe"@
                    } else {
                        "ambient"@
                    },
                ),
    {
        let dir = self.dir_path()?;
        Ok(join_path(&dir, os.ambient_bin_name()))
    }

    /// The url of the version's build for `os`.
    pub fn download_url(&self, os: Os) -> (r: Result<String, InstallError>)
        ensures
            match r {
                Ok(u) => build_url(self@.builds, os) == Some(u@),
                Err(e) => e == InstallError::NoBuildForOs && build_url(self@.builds, os) is None,
            },
    {
        let ghost bs = self@.builds;
        let mut i: usize = 0;
        while i < self.builds.len()
            invariant
                0 <= i <= self.builds.len(),
                bs == self@.builds,
                build_url(bs, os) == build_url_from(bs, os, i as int),
            decreases self.builds.len() - i,
        {
            let b: &Build = &self.builds[i];
            assert(bs[i as int] == b@);
            if b.os == os {
                return Ok(b.url.clone());
            }
            i += 1;
        }
        Err(InstallError::NoBuildForOs)
    }

    /// Decides how to install the version on `os`, given whether its
    /// executable already exists: nothing when it does, else the download of
    /// its build for `os`.
    pub fn plan_install(&self, os: Os, exe_exists: bool) -> (r: Result<InstallStep, InstallError>)
        ensures
            plan_of(r) == install_plan(self@, os, exe_exists),
    {
        if exe_exists {
            return Ok(InstallStep::AlreadyInstalled);
        }
        match self.download_url(os) {
            Ok(url) => Ok(InstallStep::Download(url)),
            Err(e) => Err(e),
        }
    }
}

/// Installing is idempotent: once the executable exists, installing again
/// fetches nothing, and the version's directory name is the same for the
/// same version.
pub proof fn lemma_install_twice_is_noop(first: RuntimeVersion, again: RuntimeVersion, os: Os)
    requires
        first.version@ == again.version@,
    ensures
        install_plan(again@, os, true) == Some(None::<Seq<char>>),
        version_text(first.version@) == version_text(again.version@),
{
}

/// How a package's Cargo manifest depends on the runtime's API crate.
#[derive(Debug, Clone, PartialEq, Eq)]
pub enum AmbientApiDependency {
    /// A registry version requirement.
    Registry(String),
    /// A tag of the source repository.
    Git { repository: String, tag: String },
}

/// The dependency on the API crate that matches a runtime version: a stable
/// release is taken from the registry by its version; any pre-release from
/// the repository, by the tag `v<version>`.
pub fn ambient_api_dependency(version: &Version) -> (r: AmbientApiDependency)
    ensures
        version@.pre.len() == 0 ==> r is Registry && r->Registry_0@
            == version_text(version@),
        version@.pre.len() > 0 ==> r is Git && r->repository@ == "https://github.com/AmbientRun/Ambient.git"@
            && r->tag@ == "v"@ + version_text(version@),
{
    let text = version.to_text();
    if version.pre.as_str().is_empty() {
        AmbientApiDependency::Registry(text)
    } else {
        let repository = String::from_str("https://github.com/AmbientRun/Ambient.git");
        let tag = String::from_str("v").concat(text.as_str());
        AmbientApiDependency::Git { repository, tag }
    }
}

} // verus!
