use crate::train::{train_of, ReleaseTrain};
use crate::version::{version_precedes, Version, VersionModel};
use vstd::prelude::*;

verus! {

/// A target platform of a build.
#[derive(Debug, Clone, Copy, PartialEq, Eq, Structural)]
pub enum Os {
    Macos,
    Windows,
    Linux,
}

/// The token that names each platform in a build's path.
pub open spec fn os_token(os: Os) -> Seq<char> {
    match os {
        Os::Macos => "macos-latest"@,
        Os::Windows => "windows-latest"@,
        Os::Linux => "ubuntu-22.04"@,
    }
}

pub open spec fn os_of_token(t: Seq<char>) -> Option<Os> {
    if t == "macos-latest"@ {
        Some(Os::Macos)
    } else if t == "windows-latest"@ {
        Some(Os::Windows)
    } else if t == "ubuntu-22.04"@ {
        Some(Os::Linux)
    } else {
        None
    }
}

/// Whether two texts hold the same characters.
pub fn same_text(a: &str, b: &str) -> (r: bool)
    ensures
        r == (a@ == b@),
{
    let n = a.unicode_len();
    if n != b.unicode_len() {
        return false;
    }
    let mut i: usize = 0;
    while i < n
        invariant
            n == a@.len(),
            n == b@.len(),
            0 <= i <= n,
            forall|k: int| 0 <= k < i ==> a@[k] == b@[k],
        decreases n - i,
    {
        if a.get_char(i) != b.get_char(i) {
            return false;
        }
        i += 1;
    }
    assert(a@ =~= b@);
    true
}

impl Os {
    /// The platform for a target operating system name (`macos`, `windows`,
    /// anything else is Linux).
    pub fn current(target_os: &str) -> (r: Os)
        ensures
            r == (if target_os@ == "macos"@ {
                Os::Macos
            } else if target_os@ == "windows"@ {
                Os::Windows
            } else {
                Os::Linux
            }),
    {
        if same_text(target_os, "macos") {
            Os::Macos
        } else if same_text(target_os, "windows") {
            Os::Windows
        } else {
            Os::Linux
        }
    }

    /// The file name of the runtime executable on this platform.
    pub fn ambient_bin_name(&self) -> (r: &'static str)
        ensures
            r@ == (if *self == Os::Windows {
                "ambient.exe"@
            } else {
                "ambient"@
            }),
    {
        match self {
            Os::Windows => "ambient.exe",
            _ => "ambient",
        }
    }

    /// The token that names this platform in a build's path.
    pub fn token(&self) -> (r: &'static str)
        ensures
            r@ == os_token(*self),
    {
        match self {
            Os::Macos => "macos-latest",
            Os::Windows => "windows-latest",
            Os::Linux => "ubuntu-22.04",
        }
    }

    /// The platform that a path token names, if any.
    pub fn from_token(s: &str) -> (r: Option<Os>)
        ensures
            r == os_of_token(s@),
    {
        if same_text(s, "macos-latest") {
            Some(Os::Macos)
        } else if same_text(s, "windows-latest") {
            Some(Os::Windows)
        } else if same_text(s, "ubuntu-22.04") {
            Some(Os::Linux)
        } else {
            None
        }
    }
}

/// Index of the first `/` in `s`, or its length when it has none.
pub open spec fn first_slash(s: Seq<char>) -> int
    decreases s.len(),
{
    if s.len() == 0 || s[0] == '/' {
        0
    } else {
        1 + first_slash(s.drop_first())
    }
}

/// The `n`-th `/`-separated segment of `s`, counting from zero.
pub open spec fn segment(s: Seq<char>, n: nat) -> Option<Seq<char>>
    decreases s.len(), n,
{
    let j = first_slash(s);
    if j < 0 || j > s.len() {
        None
    } else if n == 0 {
        Some(s.subrange(0, j))
    } else if j == s.len() {
        None
    } else {
        segment(s.subrange(j + 1, s.len() as int), (n - 1) as nat)
    }
}

proof fn lemma_first_slash_bounds(s: Seq<char>)
    ensures
        0 <= first_slash(s) <= s.len(),
        first_slash(s) < s.len() ==> s[first_slash(s)] == '/',
    decreases s.len(),
{
    if s.len() > 0 && s[0] != '/' {
        lemma_first_slash_bounds(s.drop_first());
    }
}

fn first_slash_index(s: &str) -> (r: usize)
    ensures
        r == first_slash(s@),
        r <= s@.len(),
{
    let n = s.unicode_len();
    let mut i: usize = 0;
    assert(s@.subrange(0, n as int) =~= s@);
    while i < n
        invariant
            n == s@.len(),
            0 <= i <= n,
            first_slash(s@) == i + first_slash(s@.subrange(i as int, n as int)),
        decreases n - i,
    {
        if s.get_char(i) == '/' {
            return i;
        }
        assert(s@.subrange(i as int, n as int).drop_first() =~= s@.subrange(i + 1, n as int));
        i += 1;
    }
    i
}

/// The `n`-th `/`-separated segment of a path, counting from zero.
pub fn path_segment(s: &str, n: usize) -> (r: Option<String>)
    ensures
        match r {
            Some(t) => segment(s@, n as nat) == Some(t@),
            None => segment(s@, n as nat) is None,
        },
{
    let mut rest: &str = s;
    let mut k: usize = n;
    loop
        invariant
            segment(s@, n as nat) == segment(rest@, k as nat),
        decreases rest@.len(),
    {
        let j = first_slash_index(rest);
        proof {
            lemma_first_slash_bounds(rest@);
        }
        if k == 0 {
            return Some(String::from_str(rest.substring_char(0, j)));
        }
        let len = rest.unicode_len();
        if j == len {
            return None;
        }
        rest = rest.substring_char(j + 1, len);
        k = k - 1;
    }
}


/// One downloadable artifact of a version, for one platform.
#[derive(Debug, Clone)]
pub struct Build {
    pub os: Os,
    pub url: String,
}

pub struct BuildModel {
    pub os: Os,
    pub url: Seq<char>,
}

impl View for Build {
    type V = BuildModel;

    open spec fn view(&self) -> BuildModel {
        BuildModel { os: self.os, url: self.url@ }
    }
}

/// A version together with its builds, one per platform.
#[derive(Debug, Clone)]
pub struct RuntimeVersion {
    pub version: Version,
    pub builds: Vec<Build>,
}

pub struct RuntimeVersionModel {
    pub version: VersionModel,
    pub builds: Seq<BuildModel>,
}

impl View for RuntimeVersion {
    type V = RuntimeVersionModel;

    open spec fn view(&self) -> RuntimeVersionModel {
        RuntimeVersionModel {
            version: self.version@,
            builds: self.builds@.map_values(|b: Build| b@),
        }
    }
}

impl Build {
    pub fn duplicate(&self) -> (r: Build)
        ensures
            r@ == self@,
    {
        Build { os: self.os, url: self.url.clone() }
    }
}

impl RuntimeVersion {
    pub fn without_builds(version: Version) -> (r: RuntimeVersion)
        ensures
            r@ == (RuntimeVersionModel { version: version@, builds: seq![] }),
    {
        let r = RuntimeVersion { version, builds: Vec::new() };
        assert(r@.builds =~= seq![]);
        r
    }

    /// A copy with the same value.
    pub fn duplicate(&self) -> (r: RuntimeVersion)
        ensures
            r@ == self@,
    {
        let mut builds: Vec<Build> = Vec::new();
        let mut i: usize = 0;
        while i < self.builds.len()
            invariant
                0 <= i <= self.builds.len(),
                builds@.map_values(|b: Build| b@) =~= self.builds@.subrange(0, i as int).map_values(
                    |b: Build| b@,
                ),
            decreases self.builds.len() - i,
        {
            let b = self.builds[i].duplicate();
            let ghost before = builds@;
            builds.push(b);
            proof {
                let f = |b: Build| b@;
                assert(self.builds@.subrange(0, i + 1) =~= self.builds@.subrange(0, i as int).push(
                    self.builds@[i as int],
                ));
                assert(builds@ =~= before.push(b));
                assert(builds@.map_values(f) =~= before.map_values(f).push(f(b)));
                assert(self.builds@.subrange(0, i + 1).map_values(f) =~= self.builds@.subrange(
                    0,
                    i as int,
                ).map_values(f).push(f(self.builds@[i as int])));
            }
            i += 1;
        }
        assert(self.builds@.subrange(0, i as int) =~= self.builds@);
        RuntimeVersion { version: self.version.duplicate(), builds }
    }

    pub fn is_nightly(&self) -> (r: bool)
        ensures
            r == (train_of(self.version@) == ReleaseTrain::Nightly),
    {
        ReleaseTrain::from_version(&self.version) == ReleaseTrain::Nightly
    }

    pub fn is_point_release(&self) -> (r: bool)
        ensures
            r == (train_of(self.version@) == ReleaseTrain::Stable),
    {
        ReleaseTrain::from_version(&self.version) == ReleaseTrain::Stable
    }

    /// Stable and nightly versions are public; internal ones are not.
    pub fn is_public(&self) -> (r: bool)
        ensures
            r == (train_of(self.version@) != ReleaseTrain::Internal),
    {
        self.is_point_release() || self.is_nightly()
    }
}

/// Which trains a catalog query returns besides Stable.
#[derive(Debug, Clone, Copy)]
pub struct VersionsFilter {
    pub include_private: bool,
    pub include_nightly: bool,
}

/// Whether a version passes a filter: Internal needs `include_private`,
/// Nightly needs `include_nightly`.
pub open spec fn visible(v: VersionModel, f: VersionsFilter) -> bool {
    (f.include_private || train_of(v) != ReleaseTrain::Internal) && (f.include_nightly
        || train_of(v) != ReleaseTrain::Nightly)
}

fn passes(v: &Version, f: VersionsFilter) -> (r: bool)
    ensures
        r == visible(v@, f),
{
    let t = ReleaseTrain::from_version(v);
    (f.include_private || t != ReleaseTrain::Internal) && (f.include_nightly || t
        != ReleaseTrain::Nightly)
}

/// One object of the remote artifact listing: its key and its download link.
#[derive(Debug, Clone)]
pub struct ListingItem {
    pub name: String,
    pub media_link: String,
}

pub struct ItemModel {
    pub name: Seq<char>,
    pub media_link: Seq<char>,
}

impl View for ListingItem {
    type V = ItemModel;

    open spec fn view(&self) -> ItemModel {
        ItemModel { name: self.name@, media_link: self.media_link@ }
    }
}

/// The version that a key names in its second segment, if it parses.
pub open spec fn path_version(name: Seq<char>) -> Option<VersionModel> {
    match segment(name, 1) {
        Some(t) => crate::version::parsed_version(t),
        None => None,
    }
}

/// The platform that a key names in its third segment, if it is known.
pub open spec fn path_os(name: Seq<char>) -> Option<Os> {
    match segment(name, 2) {
        Some(t) => os_of_token(t),
        None => None,
    }
}

pub fn version_from_path(path: &str) -> (r: Option<Version>)
    ensures
        match r {
            Some(v) => path_version(path@) == Some(v@),
            None => path_version(path@) is None,
        },
{
    match path_segment(path, 1) {
        Some(t) => Version::parse(t.as_str()),
        None => None,
    }
}

pub fn os_from_path(path: &str) -> (r: Option<Os>)
    ensures
        r == path_os(path@),
{
    match path_segment(path, 2) {
        Some(t) => Os::from_token(t.as_str()),
        None => None,
    }
}

pub open spec fn item_models(items: Seq<ListingItem>) -> Seq<ItemModel> {
    items.map_values(|i: ListingItem| i@)
}

pub open spec fn version_models(vs: Seq<Version>) -> Seq<VersionModel> {
    vs.map_values(|v: Version| v@)
}

/// The builds of version `v` in a listing, in listing order.
pub open spec fn builds_for(items: Seq<ItemModel>, v: VersionModel) -> Seq<BuildModel>
    decreases items.len(),
{
    if items.len() == 0 {
        seq![]
    } else {
        let rest = builds_for(items.drop_last(), v);
        let it = items.last();
        if path_version(it.name) == Some(v) {
            match path_os(it.name) {
                Some(os) => rest.push(BuildModel { os, url: it.media_link }),
                None => rest,
            }
        } else {
            rest
        }
    }
}

/// Whether some key of the listing names version `v`.
pub open spec fn listed(items: Seq<ItemModel>, v: VersionModel) -> bool {
    exists|k: int| 0 <= k < items.len() && path_version(#[trigger] items[k].name) == Some(v)
}

/// Whether a key names a version but no known platform.
pub open spec fn listing_invalid(items: Seq<ItemModel>) -> bool {
    exists|k: int|
        0 <= k < items.len() && (#[trigger] path_version(items[k].name)) is Some && path_os(
            items[k].name,
        ) is None
}

pub open spec fn has_version(vs: Seq<VersionModel>, v: VersionModel) -> bool {
    exists|i: int| 0 <= i < vs.len() && vs[i] == v
}

pub open spec fn distinct_versions(vs: Seq<VersionModel>) -> bool {
    forall|i: int, j: int| 0 <= i < j < vs.len() ==> vs[i] != vs[j]
}

/// No version is strictly before an earlier one.
pub open spec fn ascending(vs: Seq<VersionModel>) -> bool {
    forall|i: int, j: int| 0 <= i < j < vs.len() ==> !version_precedes(#[trigger] vs[j], #[trigger] vs[i])
}

/// The versions of a catalog, in order.
pub open spec fn catalog_versions(vs: Seq<RuntimeVersion>) -> Seq<VersionModel> {
    vs.map_values(|r: RuntimeVersion| r.version@)
}

/// `vs` is the catalog of a listing under a filter: one entry for each
/// distinct listed version that passes the filter, with all its builds in
/// listing order, in ascending semantic order.
pub open spec fn is_catalog_of(items: Seq<ItemModel>, f: VersionsFilter, vs: Seq<RuntimeVersion>) -> bool {
    &&& forall|i: int|
        0 <= i < vs.len() ==> visible(#[trigger] vs[i].version@, f) && listed(items, vs[i].version@)
            && vs[i]@.builds == builds_for(items, vs[i].version@)
    &&& forall|k: int|
        0 <= k < items.len() ==> match path_version(#[trigger] items[k].name) {
            Some(v) => visible(v, f) ==> has_version(catalog_versions(vs), v),
            None => true,
        }
    &&& distinct_versions(catalog_versions(vs))
    &&& ascending(catalog_versions(vs))
}

fn find_version(keys: &Vec<Version>, v: &Version) -> (r: bool)
    ensures
        r == has_version(version_models(keys@), v@),
{
    let mut i: usize = 0;
    while i < keys.len()
        invariant
            0 <= i <= keys.len(),
            forall|k: int| 0 <= k < i ==> keys@[k]@ != v@,
        decreases keys.len() - i,
    {
        if keys[i].same_as(v) {
            assert(version_models(keys@)[i as int] == v@);
            return true;
        }
        i += 1;
    }
    false
}

/// The first position whose version `v` strictly precedes.
fn insert_position(keys: &Vec<Version>, v: &Version) -> (j: usize)
    ensures
        j <= keys.len(),
        forall|k: int| 0 <= k < j ==> !version_precedes(v@, #[trigger] keys@[k]@),
        j < keys.len() ==> version_precedes(v@, keys@[j as int]@) && !version_precedes(
            keys@[j as int]@,
            v@,
        ) && forall|c: VersionModel|
            version_precedes(c, v@) ==> #[trigger] version_precedes(c, keys@[j as int]@),
{
    let mut i: usize = 0;
    while i < keys.len()
        invariant
            0 <= i <= keys.len(),
            forall|k: int| 0 <= k < i ==> !version_precedes(v@, #[trigger] keys@[k]@),
        decreases keys.len() - i,
    {
        if v.precedes(&keys[i]) {
            return i;
        }
        i += 1;
    }
    i
}

proof fn lemma_insert_sorted(s: Seq<VersionModel>, j: int, x: VersionModel)
    requires
        0 <= j <= s.len(),
        distinct_versions(s),
        ascending(s),
        !has_version(s, x),
        forall|k: int| 0 <= k < j ==> !version_precedes(x, #[trigger] s[k]),
        j < s.len() ==> !version_precedes(s[j], x) && forall|c: VersionModel|
            version_precedes(c, x) ==> #[trigger] version_precedes(c, s[j]),
    ensures
        distinct_versions(s.insert(j, x)),
        ascending(s.insert(j, x)),
        has_version(s.insert(j, x), x),
        forall|v: VersionModel| has_version(s, v) ==> has_version(s.insert(j, x), v),
        forall|v: VersionModel| has_version(s.insert(j, x), v) ==> has_version(s, v) || v == x,
{
    let t = s.insert(j, x);
    assert(t[j] == x);
    assert forall|v: VersionModel| has_version(s, v) implies has_version(t, v) by {
        let i = choose|i: int| 0 <= i < s.len() && s[i] == v;
        if i < j {
            assert(t[i] == v);
        } else {
            assert(t[i + 1] == v);
        }
    }
    assert forall|v: VersionModel| has_version(t, v) implies has_version(s, v) || v == x by {
        let i = choose|i: int| 0 <= i < t.len() && t[i] == v;
        if i < j {
            assert(s[i] == v);
        } else if i > j {
            assert(s[i - 1] == v);
        }
    }
    assert forall|a: int, b: int| 0 <= a < b < t.len() implies t[a] != t[b] by {
        if a == j {
            assert(s[b - 1] == t[b]);
        } else if b == j {
            assert(s[a] == t[a]);
        }
    }
    assert forall|a: int, b: int| 0 <= a < b < t.len() implies !version_precedes(
        #[trigger] t[b],
        #[trigger] t[a],
    ) by {
        if b < j {
            assert(t[a] == s[a] && t[b] == s[b]);
        } else if b == j {
            assert(t[a] == s[a]);
        } else if a > j {
            assert(t[a] == s[a - 1] && t[b] == s[b - 1]);
        } else if a < j {
            assert(t[a] == s[a] && t[b] == s[b - 1]);
        } else {
            assert(t[b] == s[b - 1]);
            if b - 1 > j {
                assert(!version_precedes(s[b - 1], s[j]));
            }
        }
    }
}

/// The builds of version `v` in a listing where every key that names a
/// version also names a platform.
fn builds_of(items: &Vec<ListingItem>, v: &Version) -> (r: Vec<Build>)
    requires
        !listing_invalid(item_models(items@)),
    ensures
        r@.map_values(|b: Build| b@) == builds_for(item_models(items@), v@),
{
    let mut builds: Vec<Build> = Vec::new();
    let mut k: usize = 0;
    while k < items.len()
        invariant
            0 <= k <= items.len(),
            !listing_invalid(item_models(items@)),
            builds@.map_values(|b: Build| b@) =~= builds_for(
                item_models(items@).subrange(0, k as int),
                v@,
            ),
        decreases items.len() - k,
    {
        let ghost ms = item_models(items@);
        assert(ms.subrange(0, k + 1).drop_last() =~= ms.subrange(0, k as int));
        assert(ms.subrange(0, k + 1).last() == ms[k as int]);
        let item = &items[k];
        match version_from_path(item.name.as_str()) {
            Some(iv) => {
                if iv.same_as(v) {
                    assert(path_version(ms[k as int].name) is Some);
                    match os_from_path(item.name.as_str()) {
                        Some(os) => {
                            builds.push(Build { os, url: item.media_link.clone() });
                        },
                        None => {},
                    }
                }
            },
            None => {},
        }
        k += 1;
    }
    assert(item_models(items@).subrange(0, k as int) =~= item_models(items@));
    builds
}

/// Distinct ascending versions named by a listing that pass a filter, or
/// `None` where a key names a version but no known platform.
fn listing_versions(items: &Vec<ListingItem>, filter: VersionsFilter) -> (r: Option<Vec<Version>>)
    ensures
        r is None <==> listing_invalid(item_models(items@)),
        match r {
            Some(keys) => {
                &&& distinct_versions(version_models(keys@))
                &&& ascending(version_models(keys@))
                &&& forall|i: int|
                    0 <= i < keys.len() ==> visible(#[trigger] keys@[i]@, filter) && listed(
                        item_models(items@),
                        keys@[i]@,
                    )
                &&& forall|k: int|
                    0 <= k < items.len() ==> match path_version(#[trigger] items@[k]@.name) {
                        Some(v) => visible(v, filter) ==> has_version(version_models(keys@), v),
                        None => true,
                    }
            },
            None => true,
        },
{
    let ghost ms = item_models(items@);
    let mut keys: Vec<Version> = Vec::new();
    let mut k: usize = 0;
    while k < items.len()
        invariant
            0 <= k <= items.len(),
            ms == item_models(items@),
            forall|kk: int|
                0 <= kk < k ==> (#[trigger] path_version(ms[kk].name)) is Some ==> path_os(
                    ms[kk].name,
                ) is Some,
            distinct_versions(version_models(keys@)),
            ascending(version_models(keys@)),
            forall|i: int|
                0 <= i < keys.len() ==> visible(#[trigger] keys@[i]@, filter) && listed(
                    ms,
                    keys@[i]@,
                ),
            forall|kk: int|
                0 <= kk < k ==> match path_version(#[trigger] items@[kk]@.name) {
                    Some(v) => visible(v, filter) ==> has_version(version_models(keys@), v),
                    None => true,
                },
        decreases items.len() - k,
    {
        let item = &items[k];
        assert(ms[k as int] == items@[k as int]@);
        match version_from_path(item.name.as_str()) {
            Some(v) => {
                if os_from_path(item.name.as_str()).is_none() {
                    assert(ms[k as int].name == item.name@);
                    assert(path_version(ms[k as int].name) is Some);
                    assert(listing_invalid(ms));
                    return None;
                }
                if passes(&v, filter) && !find_version(&keys, &v) {
                    let j = insert_position(&keys, &v);
                    let ghost old_keys = keys@;
                    proof {
                        lemma_insert_sorted(version_models(keys@), j as int, v@);
                    }
                    keys.insert(j, v);
                    assert(version_models(keys@) =~= version_models(old_keys).insert(j as int, v@));
                    assert forall|i: int| 0 <= i < keys.len() implies visible(
                        #[trigger] keys@[i]@,
                        filter,
                    ) && listed(ms, keys@[i]@) by {
                        if i < j {
                            assert(keys@[i] == old_keys[i]);
                        } else if i > j {
                            assert(keys@[i] == old_keys[i - 1]);
                        } else {
                            assert(ms[k as int].name == items@[k as int]@.name);
                        }
                    }
                }
            },
            None => {},
        }
        k += 1;
    }
    proof {
        assert forall|kk: int| 0 <= kk < ms.len() && (#[trigger] path_version(ms[kk].name)) is Some
            implies path_os(ms[kk].name) is Some by {}
    }
    Some(keys)
}

/// Why a catalog could not give what was asked of it.
#[derive(Debug, Clone, Copy, PartialEq, Eq, Structural)]
pub enum CatalogError {
    /// A key names a version but no known platform.
    InvalidBuildArtifact,
    /// No version of the catalog is the requested one.
    VersionNotFound,
}

/// Builds the catalog from a remote listing: keys whose second segment is not
/// a version are skipped, the rest are grouped by version with the platform
/// of their third segment, versions that the filter excludes are dropped, and
/// the result is in ascending semantic order.
pub fn versions_from_listing(items: &Vec<ListingItem>, filter: VersionsFilter) -> (r: Result<
    Vec<RuntimeVersion>,
    CatalogError,
>)
    ensures
        r is Err <==> listing_invalid(item_models(items@)),
        r is Err ==> r == Err::<Vec<RuntimeVersion>, CatalogError>(
            CatalogError::InvalidBuildArtifact,
        ),
        match r {
            Ok(vs) => is_catalog_of(item_models(items@), filter, vs@),
            Err(_) => true,
        },
{
    let keys = match listing_versions(items, filter) {
        Some(keys) => keys,
        None => {
            return Err(CatalogError::InvalidBuildArtifact);
        },
    };
    let ghost ms = item_models(items@);
    let mut out: Vec<RuntimeVersion> = Vec::new();
    let mut i: usize = 0;
    while i < keys.len()
        invariant
            0 <= i <= keys.len(),
            ms == item_models(items@),
            !listing_invalid(ms),
            out.len() == i,
            forall|j: int| 0 <= j < i ==> (#[trigger] out@[j]).version@ == keys@[j]@,
            forall|j: int| 0 <= j < i ==> (#[trigger] out@[j])@.builds == builds_for(ms, keys@[j]@),
        decreases keys.len() - i,
    {
        let builds = builds_of(items, &keys[i]);
        out.push(RuntimeVersion { version: keys[i].duplicate(), builds });
        i += 1;
    }
    assert(catalog_versions(out@) =~= version_models(keys@));
    assert forall|k: int| 0 <= k < items.len() implies match path_version(
        #[trigger] ms[k].name,
    ) {
        Some(v) => visible(v, filter) ==> has_version(catalog_versions(out@), v),
        None => true,
    } by {
        assert(ms[k] == items@[k]@);
    }
    assert forall|j: int| 0 <= j < out.len() implies visible(#[trigger] out@[j].version@, filter)
        && listed(ms, out@[j].version@) && out@[j]@.builds == builds_for(ms, out@[j].version@) by {
        assert(keys@[j]@ == out@[j].version@);
    }
    Ok(out)
}

/// Picks the requested version out of a catalog fetched for it.
pub fn get_version(version: &str, catalog: &Vec<RuntimeVersion>) -> (r: Result<
    RuntimeVersion,
    CatalogError,
>)
    ensures
        r is Ok <==> match crate::version::parsed_version(version@) {
            Some(v) => has_version(catalog_versions(catalog@), v),
            None => false,
        },
        match r {
            Ok(rv) => exists|i: int|
                0 <= i < catalog.len() && catalog@[i]@ == rv@ && Some(rv.version@)
                    == crate::version::parsed_version(version@) && forall|j: int|
                    0 <= j < i ==> (#[trigger] catalog@[j]).version@ != rv.version@,
            Err(e) => e == CatalogError::VersionNotFound,
        },
{
    let wanted = match Version::parse(version) {
        Some(v) => v,
        None => {
            return Err(CatalogError::VersionNotFound);
        },
    };
    let mut i: usize = 0;
    while i < catalog.len()
        invariant
            0 <= i <= catalog.len(),
            crate::version::parsed_version(version@) == Some(wanted@),
            forall|j: int| 0 <= j < i ==> (#[trigger] catalog@[j]).version@ != wanted@,
        decreases catalog.len() - i,
    {
        if catalog[i].version.same_as(&wanted) {
            let rv = catalog[i].duplicate();
            assert(catalog_versions(catalog@).len() == catalog.len());
            assert(catalog_versions(catalog@)[i as int] == wanted@);
            assert(rv.version@ == rv@.version);
            assert(catalog@[i as int]@ == rv@);
            assert(rv.version@ == wanted@);
            return Ok(rv);
        }
        i += 1;
    }
    assert forall|j: int| 0 <= j < catalog.len() implies catalog_versions(catalog@)[j]
        != wanted@ by {
        assert(catalog_versions(catalog@)[j] == catalog@[j].version@);
    }
    Err(CatalogError::VersionNotFound)
}

} // verus!
