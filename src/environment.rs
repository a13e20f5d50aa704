use crate::catalog::Os;
use directories::ProjectDirs;
use std::path::PathBuf;
use vstd::prelude::*;

verus! {

#[verifier::external_type_specification]
#[verifier::external_body]
pub struct ExPathBuf(PathBuf);

#[verifier::external_type_specification]
#[verifier::external_body]
pub struct ExProjectDirs(ProjectDirs);

/// Relies on directories::ProjectDirs::from: the per-user directories of an
/// application, `None` where no home directory can be found. The result
/// depends on the environment, so nothing more is stated.
#[verifier::external_body]
fn project_dirs(qualifier: &str, organization: &str, application: &str) -> (r: Option<ProjectDirs>) {
    ProjectDirs::from(qualifier, organization, application)
}

/// Relies on directories::ProjectDirs::data_dir.
#[verifier::external_body]
fn data_dir_of(dirs: &ProjectDirs) -> (r: PathBuf) {
    dirs.data_dir().to_path_buf()
}

/// Relies on directories::ProjectDirs::config_dir.
#[verifier::external_body]
fn config_dir_of(dirs: &ProjectDirs) -> (r: PathBuf) {
    dirs.config_dir().to_path_buf()
}

/// The path that std's `Path::join` makes of a base path and a name.
pub uninterp spec fn path_join(base: PathBuf, name: Seq<char>) -> PathBuf;

/// The path that std's `From<&str> for PathBuf` makes of a text.
pub uninterp spec fn path_from_text(s: Seq<char>) -> PathBuf;

/// Relies on std::path::Path::join: `name` appended to `base` as one more
/// component; the result depends on the two alone.
#[verifier::external_body]
pub(crate) fn join_path(base: &PathBuf, name: &str) -> (r: PathBuf)
    ensures
        r == path_join(*base, name@),
{
    base.join(name)
}

/// Relies on std's `From<&str> for PathBuf`: the path that the text spells.
#[verifier::external_body]
fn path_of(s: &str) -> (r: PathBuf)
    ensures
        r == path_from_text(s@),
{
    PathBuf::from(s)
}

/// Why a local path could not be formed.
#[derive(Debug, Clone, Copy, PartialEq, Eq, Structural)]
pub enum EnvError {
    /// The per-user application directories could not be found.
    NoAppDirs,
}

/// The per-user directories of this tool.
pub fn app_dir() -> (r: Result<ProjectDirs, EnvError>) {
    match project_dirs("com", "Ambient", "AmbientCli") {
        Some(dirs) => Ok(dirs),
        None => Err(EnvError::NoAppDirs),
    }
}

/// The directory that holds one subdirectory per installed runtime version.
pub fn runtimes_dir() -> (r: Result<PathBuf, EnvError>)
    ensures
        r is Ok ==> exists|data: PathBuf| r->Ok_0 == path_join(data, "runtimes"@),
{
    let dirs = app_dir()?;
    Ok(join_path(&data_dir_of(&dirs), "runtimes"))
}

/// The directory of the settings file.
pub fn settings_dir() -> (r: Result<PathBuf, EnvError>) {
    let dirs = app_dir()?;
    Ok(config_dir_of(&dirs))
}

/// The settings file.
pub fn settings_path() -> (r: Result<PathBuf, EnvError>)
    ensures
        r is Ok ==> exists|config: PathBuf| r->Ok_0 == path_join(config, "settings.json"@),
{
    let dir = settings_dir()?;
    Ok(join_path(&dir, "settings.json"))
}

/// Whether `s` begins with `prefix`.
pub open spec fn begins_with(s: Seq<char>, prefix: Seq<char>) -> bool {
    prefix.len() <= s.len() && s.subrange(0, prefix.len() as int) == prefix
}

fn starts_with_text(s: &str, prefix: &str) -> (r: bool)
    ensures
        r == begins_with(s@, prefix@),
{
    let n = prefix.unicode_len();
    if n > s.unicode_len() {
        return false;
    }
    let mut i: usize = 0;
    while i < n
        invariant
            n == prefix@.len(),
            n <= s@.len(),
            0 <= i <= n,
            forall|k: int| 0 <= k < i ==> s@[k] == prefix@[k],
        decreases n - i,
    {
        if s.get_char(i) != prefix.get_char(i) {
            assert(s@.subrange(0, n as int)[i as int] != prefix@[i as int]);
            return false;
        }
        i += 1;
    }
    assert(s@.subrange(0, n as int) =~= prefix@);
    true
}

/// The directory of a package.
pub struct PackagePath(pub PathBuf);

/// The package manifest of a package.
pub struct AmbientTomlPath(pub PathBuf);

/// The Cargo manifest of a package.
pub struct CargoTomlPath(pub PathBuf);

impl PackagePath {
    /// The package directory that the command line names: the second
    /// argument, unless it is absent or a flag (`--...`). Whether a package
    /// manifest is there is for the caller to check.
    pub fn from_args(args: &Vec<String>) -> (r: Option<PackagePath>)
        ensures
            r is Some <==> (args.len() > 1 && !begins_with(args@[1]@, "--"@)),
            r is Some ==> r->Some_0.0 == path_from_text(args@[1]@),
    {
        if args.len() < 2 {
            return None;
        }
        let maybe_path = args[1].as_str();
        if starts_with_text(maybe_path, "--") {
            return None;
        }
        Some(PackagePath(path_of(maybe_path)))
    }

    pub fn ambient_toml(&self) -> (r: AmbientTomlPath)
        ensures
            r.0 == path_join(self.0, "ambient.toml"@),
    {
        AmbientTomlPath(join_path(&self.0, "ambient.toml"))
    }

    pub fn cargo_toml(&self) -> (r: CargoTomlPath)
        ensures
            r.0 == path_join(self.0, "Cargo.toml"@),
    {
        CargoTomlPath(join_path(&self.0, "Cargo.toml"))
    }
}

} // verus!
