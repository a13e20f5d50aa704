use crate::catalog::{ascending, catalog_versions, RuntimeVersion, RuntimeVersionModel, VersionsFilter};
use crate::version::version_precedes;
use crate::train::{matches_exact, matches_exact_spec, train_of, ReleaseTrain};
use crate::version::{ComparatorModel, Version, VersionModel, VersionReq};
use vstd::prelude::*;

verus! {

/// The persisted user settings: an optional default runtime version.
#[derive(Debug, Clone)]
pub struct Settings {
    pub default_runtime: Option<Version>,
}

pub open spec fn opt_version(o: Option<Version>) -> Option<VersionModel> {
    match o {
        Some(v) => Some(v@),
        None => None,
    }
}

impl Settings {
    /// Settings with no default runtime.
    pub fn empty() -> (r: Settings)
        ensures
            r.default_runtime is None,
    {
        Settings { default_runtime: None }
    }

    /// The train of the default runtime, Stable when none is set.
    pub fn release_train(&self) -> (r: ReleaseTrain)
        ensures
            r == match self.default_runtime {
                Some(v) => train_of(v@),
                None => ReleaseTrain::Stable,
            },
    {
        match &self.default_runtime {
            Some(v) => ReleaseTrain::from_version(v),
            None => ReleaseTrain::Stable,
        }
    }

    /// Makes `version` the default runtime.
    pub fn set_default(&mut self, version: &Version)
        ensures
            opt_version(final(self).default_runtime) == Some(version@),
    {
        self.default_runtime = Some(version.duplicate());
    }
}

/// Why no runtime version could be chosen.
#[derive(Debug, Clone, Copy, PartialEq, Eq, Structural)]
pub enum ResolveError {
    /// No source holds a version that meets the requirement.
    NoSatisfyingVersion,
    /// No requirement applies and no default is set.
    NoDefaultSet,
    /// The catalog holds no version of the requested train.
    NoVersionsForTrain,
}

/// The first installed version from position `i` on that meets the requirement.
pub open spec fn first_installed_match(cs: Seq<ComparatorModel>, installed: Seq<VersionModel>, i: int) -> Option<VersionModel>
    decreases installed.len() - i,
{
    if i < 0 || i >= installed.len() {
        None
    } else if matches_exact_spec(cs, installed[i]) {
        Some(installed[i])
    } else {
        first_installed_match(cs, installed, i + 1)
    }
}

/// The first catalog entry from position `i` on whose version meets the requirement.
pub open spec fn first_catalog_match(cs: Seq<ComparatorModel>, catalog: Seq<RuntimeVersion>, i: int) -> Option<RuntimeVersionModel>
    decreases catalog.len() - i,
{
    if i < 0 || i >= catalog.len() {
        None
    } else if matches_exact_spec(cs, catalog[i].version@) {
        Some(catalog[i]@)
    } else {
        first_catalog_match(cs, catalog, i + 1)
    }
}

/// The default version if it meets the requirement, else the first installed
/// version that does.
pub open spec fn local_match(default: Option<VersionModel>, cs: Seq<ComparatorModel>, installed: Seq<VersionModel>) -> Option<VersionModel> {
    match default {
        Some(d) => if matches_exact_spec(cs, d) {
            Some(d)
        } else {
            first_installed_match(cs, installed, 0)
        },
        None => first_installed_match(cs, installed, 0),
    }
}

/// The ordered fallback: default, then installed versions, then the catalog
/// in its own order.
pub open spec fn resolution(
    default: Option<VersionModel>,
    cs: Seq<ComparatorModel>,
    installed: Seq<VersionModel>,
    catalog: Seq<RuntimeVersion>,
) -> Option<RuntimeVersionModel> {
    match local_match(default, cs, installed) {
        Some(v) => Some(RuntimeVersionModel { version: v, builds: seq![] }),
        None => first_catalog_match(cs, catalog, 0),
    }
}

pub open spec fn installed_models(installed: Seq<Version>) -> Seq<VersionModel> {
    installed.map_values(|v: Version| v@)
}

/// The installed versions named by the entries of the runtimes directory, in
/// listing order; `None` where an entry's name is not a version.
pub fn installed_from_names(names: &Vec<String>) -> (r: Option<Vec<Version>>)
    ensures
        match r {
            Some(vs) => vs.len() == names.len() && forall|i: int|
                0 <= i < names.len() ==> crate::version::parsed_version(#[trigger] names@[i]@)
                    == Some(vs@[i]@),
            None => exists|i: int|
                0 <= i < names.len() && crate::version::parsed_version(#[trigger] names@[i]@) is None,
        },
{
    let mut out: Vec<Version> = Vec::new();
    let mut i: usize = 0;
    while i < names.len()
        invariant
            0 <= i <= names.len(),
            out.len() == i,
            forall|j: int|
                0 <= j < i ==> crate::version::parsed_version(#[trigger] names@[j]@) == Some(out@[j]@),
        decreases names.len() - i,
    {
        match Version::parse(names[i].as_str()) {
            Some(v) => out.push(v),
            None => {
                return None;
            },
        }
        i += 1;
    }
    Some(out)
}

/// The version that the default or the installed versions give for a
/// requirement, without the catalog.
pub fn resolve_locally(settings: &Settings, version_req: &VersionReq, installed: &Vec<Version>) -> (r: Option<RuntimeVersion>)
    ensures
        match r {
            Some(rv) => rv@ == (RuntimeVersionModel {
                version: rv.version@,
                builds: seq![],
            }) && local_match(opt_version(settings.default_runtime), version_req@, installed_models(installed@))
                == Some(rv.version@),
            None => local_match(opt_version(settings.default_runtime), version_req@, installed_models(installed@)) is None,
        },
{
    if let Some(default_version) = &settings.default_runtime {
        if matches_exact(version_req, default_version) {
            return Some(RuntimeVersion::without_builds(default_version.duplicate()));
        }
    }
    let ghost ms = installed_models(installed@);
    let mut i: usize = 0;
    while i < installed.len()
        invariant
            0 <= i <= installed.len(),
            ms == installed_models(installed@),
            local_match(opt_version(settings.default_runtime), version_req@, ms)
                == first_installed_match(version_req@, ms, i as int),
        decreases installed.len() - i,
    {
        assert(ms[i as int] == installed@[i as int]@);
        if matches_exact(version_req, &installed[i]) {
            return Some(RuntimeVersion::without_builds(installed[i].duplicate()));
        }
        i += 1;
    }
    None
}

/// The first catalog entry whose version meets the requirement.
pub fn resolve_in_catalog(version_req: &VersionReq, catalog: &Vec<RuntimeVersion>) -> (r: Result<RuntimeVersion, ResolveError>)
    ensures
        match r {
            Ok(rv) => first_catalog_match(version_req@, catalog@, 0) == Some(rv@),
            Err(e) => e == ResolveError::NoSatisfyingVersion && first_catalog_match(
                version_req@,
                catalog@,
                0,
            ) is None,
        },
        r is Ok && ascending(catalog_versions(catalog@)) ==> forall|j: int|
            0 <= j < catalog.len() && matches_exact_spec(version_req@, (#[trigger] catalog@[j]).version@)
                && catalog@[j].version@ != r->Ok_0.version@ ==> !version_precedes(
                catalog@[j].version@,
                r->Ok_0.version@,
            ),
{
    let ghost cv = catalog_versions(catalog@);
    let mut i: usize = 0;
    while i < catalog.len()
        invariant
            0 <= i <= catalog.len(),
            first_catalog_match(version_req@, catalog@, 0) == first_catalog_match(
                version_req@,
                catalog@,
                i as int,
            ),
            cv == catalog_versions(catalog@),
            forall|j: int|
                0 <= j < i ==> !matches_exact_spec(version_req@, (#[trigger] catalog@[j]).version@),
        decreases catalog.len() - i,
    {
        if matches_exact(version_req, &catalog[i].version) {
            let rv = catalog[i].duplicate();
            proof {
                assert(rv.version@ == catalog@[i as int].version@);
                assert forall|j: int|
                    0 <= j < catalog.len() && matches_exact_spec(
                        version_req@,
                        (#[trigger] catalog@[j]).version@,
                    ) && catalog@[j].version@ != rv.version@ && ascending(cv) implies !version_precedes(
                    catalog@[j].version@,
                    rv.version@,
                ) by {
                    if j > i {
                        assert(cv[j] == catalog@[j].version@ && cv[i as int] == catalog@[i as int].version@);
                    }
                }
            }
            return Ok(rv);
        }
        i += 1;
    }
    Err(ResolveError::NoSatisfyingVersion)
}

/// Resolves a requirement against the default, then the installed versions,
/// then the catalog; the first match wins.
pub fn get_version_satisfying_req(
    settings: &Settings,
    version_req: &VersionReq,
    installed: &Vec<Version>,
    catalog: &Vec<RuntimeVersion>,
) -> (r: Result<RuntimeVersion, ResolveError>)
    ensures
        match r {
            Ok(rv) => resolution(opt_version(settings.default_runtime), version_req@, installed_models(installed@), catalog@) == Some(rv@),
            Err(e) => e == ResolveError::NoSatisfyingVersion && resolution(
                opt_version(settings.default_runtime),
                version_req@,
                installed_models(installed@),
                catalog@,
            ) is None,
        },
{
    match resolve_locally(settings, version_req, installed) {
        Some(rv) => Ok(rv),
        None => resolve_in_catalog(version_req, catalog),
    }
}

/// Whether the current runtime is settled without looking at installed
/// versions: no requirement applies, or the default meets it. The installed
/// versions and the catalog then play no part (see `lemma_default_comes_first`).
pub fn default_settles(settings: &Settings, requirement: &Option<VersionReq>) -> (r: bool)
    ensures
        r == match requirement {
            Some(q) => match settings.default_runtime {
                Some(d) => matches_exact_spec(q@, d@),
                None => false,
            },
            None => true,
        },
{
    match requirement {
        Some(q) => match &settings.default_runtime {
            Some(d) => matches_exact(q, d),
            None => false,
        },
        None => true,
    }
}

/// Whether resolving the current runtime needs the remote catalog: only when
/// a requirement applies and neither the default nor an installed version
/// meets it.
pub fn needs_catalog(settings: &Settings, requirement: &Option<VersionReq>, installed: &Vec<Version>) -> (r: bool)
    ensures
        r == match requirement {
            Some(q) => local_match(opt_version(settings.default_runtime), q@, installed_models(installed@)) is None,
            None => false,
        },
{
    match requirement {
        Some(q) => resolve_locally(settings, q, installed).is_none(),
        None => false,
    }
}

/// The runtime to use: the project's requirement resolved when there is one,
/// else the default.
pub fn get_current_runtime(
    settings: &Settings,
    requirement: &Option<VersionReq>,
    installed: &Vec<Version>,
    catalog: &Vec<RuntimeVersion>,
) -> (r: Result<RuntimeVersion, ResolveError>)
    ensures
        match requirement {
            Some(q) => match r {
                Ok(rv) => resolution(opt_version(settings.default_runtime), q@, installed_models(installed@), catalog@) == Some(rv@),
                Err(e) => e == ResolveError::NoSatisfyingVersion && resolution(
                    opt_version(settings.default_runtime),
                    q@,
                    installed_models(installed@),
                    catalog@,
                ) is None,
            },
            None => match settings.default_runtime {
                Some(d) => r is Ok && r->Ok_0@ == (RuntimeVersionModel { version: d@, builds: seq![] }),
                None => r == Err::<RuntimeVersion, ResolveError>(ResolveError::NoDefaultSet),
            },
        },
{
    if let Some(q) = requirement {
        return get_version_satisfying_req(settings, q, installed, catalog);
    }
    match &settings.default_runtime {
        Some(v) => Ok(RuntimeVersion::without_builds(v.duplicate())),
        None => Err(ResolveError::NoDefaultSet),
    }
}

/// The last position below `n` whose version is of train `t`.
pub open spec fn last_of_train(catalog: Seq<RuntimeVersion>, t: ReleaseTrain, n: int) -> Option<int>
    decreases n,
{
    if n <= 0 || n > catalog.len() {
        None
    } else if train_of(catalog[n - 1].version@) == t {
        Some(n - 1)
    } else {
        last_of_train(catalog, t, n - 1)
    }
}

/// The latest entry of train `t`; failing that, with `fallback`, the latest
/// Nightly one.
pub open spec fn latest_for_train(catalog: Seq<RuntimeVersion>, t: ReleaseTrain, fallback: bool) -> Option<RuntimeVersionModel> {
    match last_of_train(catalog, t, catalog.len() as int) {
        Some(i) => Some(catalog[i]@),
        None => if fallback {
            match last_of_train(catalog, ReleaseTrain::Nightly, catalog.len() as int) {
                Some(i) => Some(catalog[i]@),
                None => None,
            }
        } else {
            None
        },
    }
}

proof fn lemma_last_of_train_bounds(catalog: Seq<RuntimeVersion>, t: ReleaseTrain, n: int)
    ensures
        match last_of_train(catalog, t, n) {
            Some(i) => 0 <= i < n && i < catalog.len(),
            None => true,
        },
    decreases n,
{
    if n > 0 && n <= catalog.len() && train_of(catalog[n - 1].version@) != t {
        lemma_last_of_train_bounds(catalog, t, n - 1);
    }
}

fn last_index_of_train(catalog: &Vec<RuntimeVersion>, t: ReleaseTrain) -> (r: Option<usize>)
    ensures
        match r {
            Some(i) => last_of_train(catalog@, t, catalog.len() as int) == Some(i as int) && i < catalog.len(),
            None => last_of_train(catalog@, t, catalog.len() as int) is None,
        },
{
    let mut n: usize = catalog.len();
    while n > 0
        invariant
            n <= catalog.len(),
            last_of_train(catalog@, t, catalog.len() as int) == last_of_train(catalog@, t, n as int),
        decreases n,
    {
        if ReleaseTrain::from_version(&catalog[n - 1].version) == t {
            return Some(n - 1);
        }
        n -= 1;
    }
    None
}

/// The last entry of a train is not before any other entry of that train,
/// in a catalog in ascending order.
proof fn lemma_latest_is_greatest(catalog: Seq<RuntimeVersion>, t: ReleaseTrain, i: int)
    requires
        0 <= i < catalog.len(),
        last_of_train(catalog, t, catalog.len() as int) == Some(i),
    ensures
        train_of(catalog[i].version@) == t,
        ascending(catalog_versions(catalog)) ==> forall|j: int|
            0 <= j < catalog.len() && train_of((#[trigger] catalog[j]).version@) == t
                && catalog[j].version@ != catalog[i].version@ ==> !version_precedes(
                catalog[i].version@,
                catalog[j].version@,
            ),
{
    lemma_latest_is_last_of_its_train(catalog, t, catalog.len() as int);
    let cv = catalog_versions(catalog);
    assert forall|j: int|
        0 <= j < catalog.len() && train_of((#[trigger] catalog[j]).version@) == t
            && catalog[j].version@ != catalog[i].version@ && ascending(cv) implies !version_precedes(
        catalog[i].version@,
        catalog[j].version@,
    ) by {
        if j < i {
            assert(cv[j] == catalog[j].version@ && cv[i] == catalog[i].version@);
        }
    }
}

/// The filter for fetching the catalog when looking for the latest of a train.
pub fn train_filter(release_train: ReleaseTrain, fallback_to_nightly: bool) -> (r: VersionsFilter)
    ensures
        r.include_private == (release_train == ReleaseTrain::Internal),
        r.include_nightly == (release_train == ReleaseTrain::Nightly || fallback_to_nightly),
{
    VersionsFilter {
        include_private: release_train == ReleaseTrain::Internal,
        include_nightly: release_train == ReleaseTrain::Nightly || fallback_to_nightly,
    }
}

/// The latest catalog entry of a train, in the catalog's ascending order;
/// failing that, with `fallback_to_nightly`, the latest Nightly entry.
pub fn get_latest_remote_version_for_train(
    release_train: ReleaseTrain,
    fallback_to_nightly: bool,
    catalog: &Vec<RuntimeVersion>,
) -> (r: Result<RuntimeVersion, ResolveError>)
    ensures
        match r {
            Ok(rv) => latest_for_train(catalog@, release_train, fallback_to_nightly) == Some(rv@),
            Err(e) => e == ResolveError::NoVersionsForTrain && latest_for_train(
                catalog@,
                release_train,
                fallback_to_nightly,
            ) is None,
        },
        r is Ok ==> train_of(r->Ok_0.version@) == release_train || (fallback_to_nightly && train_of(
            r->Ok_0.version@,
        ) == ReleaseTrain::Nightly),
        r is Ok && ascending(catalog_versions(catalog@)) ==> forall|j: int|
            0 <= j < catalog.len() && train_of((#[trigger] catalog@[j]).version@) == train_of(
                r->Ok_0.version@,
            ) && catalog@[j].version@ != r->Ok_0.version@ ==> !version_precedes(
                r->Ok_0.version@,
                catalog@[j].version@,
            ),
{
    if let Some(i) = last_index_of_train(catalog, release_train) {
        let rv = catalog[i].duplicate();
        proof {
            lemma_latest_is_greatest(catalog@, release_train, i as int);
        }
        return Ok(rv);
    }
    if fallback_to_nightly {
        if let Some(i) = last_index_of_train(catalog, ReleaseTrain::Nightly) {
            let rv = catalog[i].duplicate();
            proof {
                lemma_latest_is_greatest(catalog@, ReleaseTrain::Nightly, i as int);
            }
            return Ok(rv);
        }
    }
    Err(ResolveError::NoVersionsForTrain)
}

/// Once the default or an installed version meets the requirement, the
/// catalog plays no part: any two catalogs give that same local version.
pub proof fn lemma_local_match_needs_no_catalog(
    settings: Settings,
    version_req: VersionReq,
    installed: Seq<Version>,
    catalog1: Seq<RuntimeVersion>,
    catalog2: Seq<RuntimeVersion>,
)
    requires
        local_match(opt_version(settings.default_runtime), version_req@, installed_models(installed)) is Some,
    ensures
        resolution(opt_version(settings.default_runtime), version_req@, installed_models(installed), catalog1)
            == resolution(opt_version(settings.default_runtime), version_req@, installed_models(installed), catalog2),
        resolution(opt_version(settings.default_runtime), version_req@, installed_models(installed), catalog1)
            is Some,
{
}

/// A default version that meets the requirement is chosen before any
/// installed or catalog version.
pub proof fn lemma_default_comes_first(
    settings: Settings,
    version_req: VersionReq,
    installed: Seq<Version>,
    catalog: Seq<RuntimeVersion>,
)
    requires
        settings.default_runtime is Some,
        matches_exact_spec(version_req@, settings.default_runtime->Some_0@),
    ensures
        resolution(opt_version(settings.default_runtime), version_req@, installed_models(installed), catalog)
            == Some(RuntimeVersionModel { version: settings.default_runtime->Some_0@, builds: seq![] }),
{
}

proof fn lemma_no_installed_match(cs: Seq<ComparatorModel>, installed: Seq<VersionModel>, i: int)
    requires
        0 <= i,
    ensures
        first_installed_match(cs, installed, i) is None <==> forall|j: int|
            i <= j < installed.len() ==> !matches_exact_spec(cs, #[trigger] installed[j]),
    decreases installed.len() - i,
{
    if i < installed.len() {
        lemma_no_installed_match(cs, installed, i + 1);
    }
}

proof fn lemma_no_catalog_match(cs: Seq<ComparatorModel>, catalog: Seq<RuntimeVersion>, i: int)
    requires
        0 <= i,
    ensures
        first_catalog_match(cs, catalog, i) is None <==> forall|j: int|
            i <= j < catalog.len() ==> !matches_exact_spec(cs, #[trigger] catalog[j].version@),
    decreases catalog.len() - i,
{
    if i < catalog.len() {
        lemma_no_catalog_match(cs, catalog, i + 1);
    }
}

/// Resolution fails exactly when the default, every installed version and
/// every catalog version all fail the requirement.
pub proof fn lemma_fails_only_when_all_sources_fail(
    settings: Settings,
    version_req: VersionReq,
    installed: Seq<Version>,
    catalog: Seq<RuntimeVersion>,
)
    ensures
        resolution(opt_version(settings.default_runtime), version_req@, installed_models(installed), catalog)
            is None <==> {
            &&& match settings.default_runtime {
                Some(d) => !matches_exact_spec(version_req@, d@),
                None => true,
            }
            &&& forall|j: int|
                0 <= j < installed.len() ==> !matches_exact_spec(version_req@, (#[trigger] installed[j])@)
            &&& forall|j: int|
                0 <= j < catalog.len() ==> !matches_exact_spec(version_req@, (#[trigger] catalog[j]).version@)
        },
{
    let ms = installed_models(installed);
    lemma_no_installed_match(version_req@, ms, 0);
    lemma_no_catalog_match(version_req@, catalog, 0);
    assert forall|j: int| 0 <= j < installed.len() implies ms[j] == (#[trigger] installed[j])@ by {}
}

/// The entry picked for a train is of that train, and no later entry of the
/// catalog is.
pub proof fn lemma_latest_is_last_of_its_train(catalog: Seq<RuntimeVersion>, t: ReleaseTrain, n: int)
    requires
        0 <= n <= catalog.len(),
        last_of_train(catalog, t, n) is Some,
    ensures
        0 <= last_of_train(catalog, t, n)->Some_0 < n,
        train_of(catalog[last_of_train(catalog, t, n)->Some_0].version@) == t,
        forall|j: int|
            last_of_train(catalog, t, n)->Some_0 < j < n ==> train_of(
                (#[trigger] catalog[j]).version@,
            ) != t,
    decreases n,
{
    if train_of(catalog[n - 1].version@) != t {
        lemma_latest_is_last_of_its_train(catalog, t, n - 1);
    }
}

} // verus!
