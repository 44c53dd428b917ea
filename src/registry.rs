//! Where the registry keeps packages, globals and responses, and the walk that
//! validates a package together with everything it depends on.
use vstd::prelude::*;
use crate::error::{Error, Fault};
use crate::package::{title_views, PackageTitle, SourcePackage, TitleView};
use crate::text::join_path;
use crate::text::join_path_text;

verus! {

pub const PACKAGE_SUBPATH: &'static str = "packages";

pub const GLOBAL_SUBPATH: &'static str = "variables";

pub const RESPONSE_SUBPATH: &'static str = "responses";

pub const NO_REGISTRY: &'static str = "source package does not contain registry information";

/// `<root>/<subpath>/<name>`.
pub open spec fn keyspace_path(root: Seq<char>, subpath: Seq<char>, name: Seq<char>) -> Seq<char> {
    join_path(join_path(root, subpath), name)
}

/// The file that holds the package `name` at `version`.
pub open spec fn package_file(root: Seq<char>, name: Seq<char>, version: Seq<char>) -> Seq<char> {
    join_path(keyspace_path(root, PACKAGE_SUBPATH@, name), version + ".json"@)
}

/// The file a new version of that package is written to before it is renamed
/// into place.
pub open spec fn package_temp_file(root: Seq<char>, name: Seq<char>, version: Seq<char>) -> Seq<
    char,
> {
    join_path(keyspace_path(root, PACKAGE_SUBPATH@, name), version + ".json.tmp"@)
}

/// The file that holds what is stored under `name` in a keyspace.
pub open spec fn keyspace_file(root: Seq<char>, subpath: Seq<char>, name: Seq<char>) -> Seq<char> {
    keyspace_path(root, subpath, name + ".json"@)
}

pub open spec fn keyspace_temp_file(root: Seq<char>, subpath: Seq<char>, name: Seq<char>) -> Seq<
    char,
> {
    keyspace_path(root, subpath, name + ".json.tmp"@)
}

fn keyspace_text(root: &str, subpath: &str, name: &str) -> (r: String)
    ensures
        r@ == keyspace_path(root@, subpath@, name@),
{
    let base = join_path_text(root, subpath);
    join_path_text(base.as_str(), name)
}

/// A temporary file and the file it is renamed to are never the same file, so
/// a reader never sees a write in progress.
pub proof fn lemma_temp_file_differs(dir: Seq<char>, stem: Seq<char>)
    ensures
        join_path(dir, stem + ".json.tmp"@) != join_path(dir, stem + ".json"@),
{
    reveal_strlit(".json");
    reveal_strlit(".json.tmp");
    let a = stem + ".json.tmp"@;
    let b = stem + ".json"@;
    assert(a.len() == b.len() + 4);
    assert(a[0] == b[0]);
    if a.len() > 0 && a[0] == '/' {
    } else if dir.len() == 0 {
    } else if dir.last() == '/' {
        assert((dir + a).len() == (dir + b).len() + 4);
    } else {
        assert((dir + seq!['/'] + a).len() == (dir + seq!['/'] + b).len() + 4);
    }
}

/// The package store under one root directory.
#[derive(Debug)]
pub struct Registry {
    pub root: String,
}

impl Registry {
    pub fn new(root: String) -> (r: Self)
        ensures
            r.root@ == root@,
    {
        Registry { root }
    }

    /// The registry's root directory.
    pub fn path(&self) -> (r: String)
        ensures
            r@ == self.root@,
    {
        self.root.clone()
    }

    /// The directory that holds every version of the package `name`.
    pub fn package_dir(&self, name: &str) -> (r: String)
        ensures
            r@ == keyspace_path(self.root@, PACKAGE_SUBPATH@, name@),
    {
        keyspace_text(self.root.as_str(), PACKAGE_SUBPATH, name)
    }

    pub fn package_file(&self, name: &str, version: &str) -> (r: String)
        ensures
            r@ == package_file(self.root@, name@, version@),
    {
        let dir = self.package_dir(name);
        let file = String::from_str(version).concat(".json");
        join_path_text(dir.as_str(), file.as_str())
    }

    pub fn package_temp_file(&self, name: &str, version: &str) -> (r: String)
        ensures
            r@ == package_temp_file(self.root@, name@, version@),
    {
        let dir = self.package_dir(name);
        let file = String::from_str(version).concat(".json.tmp");
        join_path_text(dir.as_str(), file.as_str())
    }

    /// A package read from this registry, marked with the registry it came from.
    pub fn load(&self, stored: SourcePackage) -> (r: SourcePackage)
        ensures
            r.title == stored.title,
            r.description == stored.description,
            r.dependencies == stored.dependencies,
            r.source == stored.source,
            r.networking == stored.networking,
            r.storage == stored.storage,
            r.system == stored.system,
            r.resources == stored.resources,
            r.prompts == stored.prompts,
            r.root matches Some(root) && root@ == self.root@,
    {
        let mut package = stored;
        package.root = Some(self.root.clone());
        package
    }

    /// Starts validating the package `name` at `version` and, transitively,
    /// its dependencies.
    pub fn validate(&self, name: &str, version: &str) -> (r: Validation)
        ensures
            title_views(r.pending@) == seq![TitleView { name: name@, version: version@ }],
            r.seen@.len() == 0,
    {
        let title = PackageTitle { name: String::from_str(name), version: String::from_str(version) };
        let mut pending: Vec<PackageTitle> = Vec::new();
        pending.push(title);
        assert(title_views(pending@) =~= seq![TitleView { name: name@, version: version@ }]);
        Validation { pending, seen: Vec::new() }
    }
}

/// A package being written never occupies the file that loading its title
/// reads, until it is renamed there.
pub proof fn lemma_package_temp_file_differs(root: Seq<char>, title: TitleView)
    ensures
        package_temp_file(root, title.name, title.version) != package_file(
            root,
            title.name,
            title.version,
        ),
{
    lemma_temp_file_differs(keyspace_path(root, PACKAGE_SUBPATH@, title.name), title.version);
}

/// Where the globals of each package are kept.
#[derive(Debug)]
pub struct GlobalRegistry {
    pub root: String,
}

/// Where the responses of each package are kept.
#[derive(Debug)]
pub struct ResponseRegistry {
    pub root: String,
}

impl GlobalRegistry {
    pub fn new(root: String) -> (r: Self)
        ensures
            r.root@ == root@,
    {
        GlobalRegistry { root }
    }

    /// The file that holds the globals of the package `name`.
    pub fn file(&self, name: &str) -> (r: String)
        ensures
            r@ == keyspace_file(self.root@, GLOBAL_SUBPATH@, name@),
    {
        let file = String::from_str(name).concat(".json");
        keyspace_text(self.root.as_str(), GLOBAL_SUBPATH, file.as_str())
    }

    pub fn temp_file(&self, name: &str) -> (r: String)
        ensures
            r@ == keyspace_temp_file(self.root@, GLOBAL_SUBPATH@, name@),
    {
        let file = String::from_str(name).concat(".json.tmp");
        keyspace_text(self.root.as_str(), GLOBAL_SUBPATH, file.as_str())
    }
}

impl ResponseRegistry {
    pub fn new(root: String) -> (r: Self)
        ensures
            r.root@ == root@,
    {
        ResponseRegistry { root }
    }

    /// The file that holds the responses of the package `name`.
    pub fn file(&self, name: &str) -> (r: String)
        ensures
            r@ == keyspace_file(self.root@, RESPONSE_SUBPATH@, name@),
    {
        let file = String::from_str(name).concat(".json");
        keyspace_text(self.root.as_str(), RESPONSE_SUBPATH, file.as_str())
    }

    pub fn temp_file(&self, name: &str) -> (r: String)
        ensures
            r@ == keyspace_temp_file(self.root@, RESPONSE_SUBPATH@, name@),
    {
        let file = String::from_str(name).concat(".json.tmp");
        keyspace_text(self.root.as_str(), RESPONSE_SUBPATH, file.as_str())
    }
}

impl SourcePackage {
    /// The store of the package's globals, which is known only for a package
    /// loaded from a registry.
    pub fn global_registry(&self) -> (r: Result<GlobalRegistry, Error>)
        ensures
            match self.root {
                Some(root) => r matches Ok(g) && g.root@ == root@,
                None => r matches Err(e) && e@ == Fault::NotFound(NO_REGISTRY@),
            },
    {
        match &self.root {
            Some(root) => Ok(GlobalRegistry::new(root.clone())),
            None => Err(Error::NotFound(String::from_str(NO_REGISTRY))),
        }
    }

    /// The store of the package's responses, which is known only for a package
    /// loaded from a registry.
    pub fn response_registry(&self) -> (r: Result<ResponseRegistry, Error>)
        ensures
            match self.root {
                Some(root) => r matches Ok(g) && g.root@ == root@,
                None => r matches Err(e) && e@ == Fault::NotFound(NO_REGISTRY@),
            },
    {
        match &self.root {
            Some(root) => Ok(ResponseRegistry::new(root.clone())),
            None => Err(Error::NotFound(String::from_str(NO_REGISTRY))),
        }
    }
}

pub open spec fn has_title(ts: Seq<PackageTitle>, t: TitleView) -> bool {
    exists|i: int| 0 <= i < ts.len() && #[trigger] ts[i]@ == t
}

fn same_title(a: &PackageTitle, b: &PackageTitle) -> (r: bool)
    ensures
        r == (a@ == b@),
{
    a.name == b.name && a.version == b.version
}

fn contains_title(ts: &Vec<PackageTitle>, t: &PackageTitle) -> (r: bool)
    ensures
        r == has_title(ts@, t@),
{
    let mut i: usize = 0;
    while i < ts.len()
        invariant
            i <= ts@.len(),
            forall|j: int| 0 <= j < i ==> #[trigger] ts@[j]@ != t@,
        decreases ts.len() - i,
    {
        if same_title(&ts[i], t) {
            return true;
        }
        i = i + 1;
    }
    false
}

/// A walk over a package and its dependencies, depth first in the order the
/// dependencies are listed. Each title is checked once, so a cycle of
/// dependencies ends the walk instead of repeating it.
#[derive(Debug)]
pub struct Validation {
    /// Titles still to check; the last is checked next.
    pub pending: Vec<PackageTitle>,
    /// Titles already handed out for checking.
    pub seen: Vec<PackageTitle>,
}

impl Validation {
    /// The next title to load and check, or `None` when every title has been
    /// checked. Titles already seen are passed over.
    pub fn next_title(&mut self) -> (r: Option<PackageTitle>)
        ensures
            match r {
                None => {
                    &&& final(self).pending@.len() == 0
                    &&& final(self).seen@ == old(self).seen@
                    &&& forall|i: int|
                        0 <= i < old(self).pending@.len() ==> has_title(
                            old(self).seen@,
                            #[trigger] old(self).pending@[i]@,
                        )
                },
                Some(t) => {
                    let k = final(self).pending@.len() as int;
                    &&& k < old(self).pending@.len()
                    &&& final(self).pending@ == old(self).pending@.take(k)
                    &&& old(self).pending@[k]@ == t@
                    &&& !has_title(old(self).seen@, t@)
                    &&& final(self).seen@ == old(self).seen@.push(t)
                    &&& forall|i: int|
                        k < i < old(self).pending@.len() ==> has_title(
                            old(self).seen@,
                            #[trigger] old(self).pending@[i]@,
                        )
                },
            },
    {
        let ghost start = self.pending@;
        loop
            invariant
                self.seen@ == old(self).seen@,
                start == old(self).pending@,
                self.pending@.len() <= start.len(),
                self.pending@ == start.take(self.pending@.len() as int),
                forall|i: int|
                    self.pending@.len() <= i < start.len() ==> has_title(
                        self.seen@,
                        #[trigger] start[i]@,
                    ),
            decreases self.pending@.len(),
        {
            match self.pending.pop() {
                None => {
                    return None;
                },
                Some(t) => {
                    let k = self.pending.len();
                    assert(start[k as int] == t);
                    assert(self.pending@ =~= start.take(k as int));
                    if !contains_title(&self.seen, &t) {
                        let copy = t.clone();
                        self.seen.push(copy);
                        return Some(t);
                    }
                },
            }
        }
    }

    /// Checks a package loaded for `requested`: its own title must be the one
    /// requested, and its globals must have loaded. Its dependencies are then
    /// queued so that the first listed is checked next.
    pub fn check(
        &mut self,
        requested: &PackageTitle,
        package: &SourcePackage,
        globals: Result<(), Error>,
    ) -> (r: Result<(), Error>)
        ensures
            package.title@ != requested@ ==> (r matches Err(e) && e@ == (Fault::TitleMismatch {
                name: requested.name@,
                version: requested.version@,
            })),
            package.title@ == requested@ && globals is Err ==> (r matches Err(e) && (globals
                matches Err(g) && e@ == g@)),
            package.title@ == requested@ && globals is Ok ==> r is Ok,
            r is Err ==> final(self).pending@ == old(self).pending@,
            r is Ok ==> title_views(final(self).pending@) == title_views(old(self).pending@)
                + title_views(match package.dependencies {
                Some(d) => d@,
                None => Seq::empty(),
            }).reverse(),
            final(self).seen@ == old(self).seen@,
    {
        if !same_title(&package.title, requested) {
            return Err(
                Error::TitleMismatch {
                    name: requested.name.clone(),
                    version: requested.version.clone(),
                },
            );
        }
        match globals {
            Err(e) => return Err(e),
            Ok(()) => {},
        }
        let ghost start = title_views(self.pending@);
        match &package.dependencies {
            None => {
                assert(title_views(Seq::<PackageTitle>::empty()).reverse() =~= Seq::<
                    TitleView,
                >::empty());
                assert(title_views(self.pending@) =~= start + Seq::<TitleView>::empty());
            },
            Some(deps) => {
                let ghost all = title_views(deps@).reverse();
                let mut j: usize = deps.len();
                assert(all.take(0) =~= Seq::<TitleView>::empty());
                assert(title_views(self.pending@) =~= start + all.take(0));
                while j > 0
                    invariant
                        j <= deps@.len(),
                        all == title_views(deps@).reverse(),
                        self.seen@ == old(self).seen@,
                        title_views(self.pending@) == start + all.take(deps@.len() - j),
                    decreases j,
                {
                    let ghost before = self.pending@;
                    let t = deps[j - 1].clone();
                    self.pending.push(t);
                    assert(all.take(deps@.len() - j + 1) =~= all.take(deps@.len() - j).push(
                        deps@[j - 1]@,
                    ));
                    assert(title_views(self.pending@) =~= title_views(before).push(t@));
                    j = j - 1;
                }
                assert(all.take(deps@.len() as int) =~= all);
            },
        }
        Ok(())
    }
}

} // verus!
