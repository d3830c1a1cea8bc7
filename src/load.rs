//! Loaded algorithms and the registry that owns them.
//!
//! Opening a plugin binary and reading its export are the caller's part;
//! the registry decides whether what was read may be loaded, calls the
//! plugin's factory, and binds the capability object to the library handle
//! that keeps its code mapped.
use vstd::prelude::*;

use crate::error::{Error, ErrorKind};
use crate::text::same_text;

verus! {

/// libloading's handle of an opened library. The registry only holds it,
/// so that the library stays mapped while its capability object lives.
#[verifier::external_type_specification]
#[verifier::external_body]
pub struct ExLibrary(libloading::Library);

/// The build output of a plugin crate to load from.
#[derive(Clone, Copy, Debug, PartialEq, Eq, Structural)]
pub enum BuildDir {
    /// `target/release`
    Release,
    /// `target/debug`
    Debug,
}

/// The message when a crate directory holds no build output.
pub open spec fn no_build_message(dir_name: Seq<char>) -> Seq<char> {
    "No algorithm in this directory \""@ + dir_name + "\""@
}

/// Where to look for the plugin of the crate directory `dir_name`: a
/// release build is preferred, and a debug build is accepted only where
/// there is no release build. A directory with neither fails the scan.
pub fn build_output_dir(dir_name: &str, release_exists: bool, debug_exists: bool) -> (r: Result<BuildDir, Error>)
    ensures
        release_exists ==> r == Ok::<BuildDir, Error>(BuildDir::Release),
        !release_exists && debug_exists ==> r == Ok::<BuildDir, Error>(BuildDir::Debug),
        !release_exists && !debug_exists ==> match r {
            Err(e) => e.spec_kind() == ErrorKind::IO && e.spec_msg() == no_build_message(dir_name@),
            Ok(_) => false,
        },
{
    if release_exists {
        Ok(BuildDir::Release)
    } else if debug_exists {
        Ok(BuildDir::Debug)
    } else {
        let mut msg = String::from_str("No algorithm in this directory \"");
        msg.append(dir_name);
        msg.append("\"");
        Err(Error::new(msg, ErrorKind::IO))
    }
}

/// The compiler and utility versions a plugin was built with, or those of
/// the host that loads it.
#[derive(Clone, Debug)]
pub struct AbiVersion {
    pub rustc_version: String,
    pub utils_version: String,
}

/// The address-independent part of a plugin's registration record: the
/// versions it was built with and the name it registers under.
#[derive(Clone, Debug)]
pub struct AlgorithmRegistration {
    pub rustc_version: String,
    pub utils_version: String,
    pub name: String,
}

/// A plugin may be loaded only when both of its versions equal the host's.
pub open spec fn versions_match(reg: AlgorithmRegistration, host: AbiVersion) -> bool {
    reg.rustc_version@ == host.rustc_version@ && reg.utils_version@ == host.utils_version@
}

/// The message of a version mismatch; it names the plugin and shows both
/// version pairs.
pub open spec fn mismatch_message(reg: AlgorithmRegistration, host: AbiVersion) -> Seq<char> {
    "The algorithm `"@ + reg.name@ + "` has a mismatched version!\nAlgorithm version: ["@
        + reg.rustc_version@ + "/"@ + reg.utils_version@ + "]\nUtils version: ["@
        + host.rustc_version@ + "/"@ + host.utils_version@ + "]"@
}

/// The message when a plugin's name is already taken.
pub open spec fn duplicate_message() -> Seq<char> {
    "Algorithm already exists"@
}

/// `r` failed with an error of kind `kind` and message `msg`.
pub open spec fn fails_with(r: Result<(), Error>, kind: ErrorKind, msg: Seq<char>) -> bool {
    match r {
        Ok(_) => false,
        Err(e) => e.spec_kind() == kind && e.spec_msg() == msg,
    }
}

impl AbiVersion {
    /// Whether both versions equal those of `other`.
    pub fn matches(&self, other: &AbiVersion) -> (r: bool)
        ensures
            r == (self.rustc_version@ == other.rustc_version@ && self.utils_version@ == other.utils_version@),
    {
        same_text(self.rustc_version.as_str(), other.rustc_version.as_str()) && same_text(
            self.utils_version.as_str(),
            other.utils_version.as_str(),
        )
    }
}

impl AlgorithmRegistration {
    /// Whether the plugin was built with the host's versions.
    pub fn matches(&self, host: &AbiVersion) -> (r: bool)
        ensures
            r == versions_match(*self, *host),
    {
        same_text(self.rustc_version.as_str(), host.rustc_version.as_str()) && same_text(
            self.utils_version.as_str(),
            host.utils_version.as_str(),
        )
    }

    /// The error a version mismatch reports.
    pub fn mismatch_error(&self, host: &AbiVersion) -> (r: Error)
        ensures
            r.spec_kind() == ErrorKind::MisMatchedVersion,
            r.spec_msg() == mismatch_message(*self, *host),
    {
        let mut msg = String::from_str("The algorithm `");
        msg.append(self.name.as_str());
        msg.append("` has a mismatched version!\nAlgorithm version: [");
        msg.append(self.rustc_version.as_str());
        msg.append("/");
        msg.append(self.utils_version.as_str());
        msg.append("]\nUtils version: [");
        msg.append(host.rustc_version.as_str());
        msg.append("/");
        msg.append(host.utils_version.as_str());
        msg.append("]");
        Error::new(msg, ErrorKind::MisMatchedVersion)
    }
}

/// One entry of the directory scanned for plugins. For a directory, whether
/// it holds a release and a debug build output.
#[derive(Clone, Debug)]
pub struct ScanEntry {
    pub name: String,
    pub is_file: bool,
    pub is_dir: bool,
    pub has_release: bool,
    pub has_debug: bool,
}

/// One entry of a build output directory.
#[derive(Clone, Debug)]
pub struct FileEntry {
    pub name: String,
    pub is_file: bool,
}

/// What a scan does with one entry of the scanned directory: load it as a
/// plugin (`build` is none), or load the plugins in its build output.
#[derive(Clone, Debug)]
pub struct ScanStep {
    pub name: String,
    pub build: Option<BuildDir>,
}

pub open spec fn step_view(s: ScanStep) -> (Seq<char>, Option<BuildDir>) {
    (s.name@, s.build)
}

/// `name` ends in a dot and `ext`, with something before the dot.
pub open spec fn has_extension(name: Seq<char>, ext: Seq<char>) -> bool {
    &&& name.len() > ext.len() + 1
    &&& name[name.len() - ext.len() - 1] == '.'
    &&& name.subrange(name.len() - ext.len(), name.len() as int) == ext
}

/// Whether an entry named `name` is a plugin binary, given the platform's
/// extension for dynamic libraries.
pub fn is_plugin_file(name: &str, is_file: bool, ext: &str) -> (r: bool)
    ensures
        r == (is_file && has_extension(name@, ext@)),
{
    if !is_file {
        return false;
    }
    let n = name.unicode_len();
    let m = ext.unicode_len();
    if n <= m || n - m < 2 {
        return false;
    }
    if name.get_char(n - m - 1) != '.' {
        return false;
    }
    same_text(name.substring_char(n - m, n), ext)
}

/// The steps of a scan over `entries`, in order: each plugin binary is
/// loaded, and each directory's build output is searched. A directory with
/// no build output fails the scan with its message.
pub open spec fn plan_of(entries: Seq<ScanEntry>, ext: Seq<char>) -> Result<Seq<(Seq<char>, Option<BuildDir>)>, Seq<char>>
    decreases entries.len(),
{
    if entries.len() == 0 {
        Ok(Seq::empty())
    } else {
        match plan_of(entries.drop_last(), ext) {
            Err(m) => Err(m),
            Ok(p) => {
                let e = entries.last();
                if e.is_dir {
                    if e.has_release {
                        Ok(p.push((e.name@, Some(BuildDir::Release))))
                    } else if e.has_debug {
                        Ok(p.push((e.name@, Some(BuildDir::Debug))))
                    } else {
                        Err(no_build_message(e.name@))
                    }
                } else if e.is_file && has_extension(e.name@, ext) {
                    Ok(p.push((e.name@, None)))
                } else {
                    Ok(p)
                }
            },
        }
    }
}

proof fn lemma_plan_err_persists(entries: Seq<ScanEntry>, ext: Seq<char>, n: int)
    requires
        0 <= n <= entries.len(),
        plan_of(entries.take(n), ext) is Err,
    ensures
        plan_of(entries, ext) == plan_of(entries.take(n), ext),
    decreases entries.len() - n,
{
    if n == entries.len() {
        assert(entries.take(n) =~= entries);
    } else {
        assert(entries.take(n + 1).drop_last() =~= entries.take(n));
        lemma_plan_err_persists(entries, ext, n + 1);
    }
}

/// Plans a scan of the directory whose entries are `entries`.
pub fn scan_plan(entries: &Vec<ScanEntry>, ext: &str) -> (r: Result<Vec<ScanStep>, Error>)
    ensures
        match plan_of(entries@, ext@) {
            Ok(p) => r matches Ok(v) && v@.map_values(|s: ScanStep| step_view(s)) == p,
            Err(m) => r matches Err(e) && e.spec_kind() == ErrorKind::IO && e.spec_msg() == m,
        },
{
    let mut steps: Vec<ScanStep> = Vec::new();
    let mut i: usize = 0;
    proof {
        assert(entries@.take(0) =~= Seq::<ScanEntry>::empty());
        assert(steps@.map_values(|s: ScanStep| step_view(s)) =~= Seq::empty());
    }
    while i < entries.len()
        invariant
            i <= entries@.len(),
            plan_of(entries@.take(i as int), ext@) == Ok::<Seq<(Seq<char>, Option<BuildDir>)>, Seq<char>>(
                steps@.map_values(|s: ScanStep| step_view(s)),
            ),
        decreases entries@.len() - i,
    {
        let e = &entries[i];
        let ghost before = steps@;
        proof {
            assert(entries@.take(i + 1).drop_last() =~= entries@.take(i as int));
            assert(entries@.take(i + 1).last() == *e);
        }
        if e.is_dir {
            match build_output_dir(e.name.as_str(), e.has_release, e.has_debug) {
                Ok(b) => {
                    steps.push(ScanStep { name: e.name.clone(), build: Some(b) });
                },
                Err(err) => {
                    proof {
                        lemma_plan_err_persists(entries@, ext@, i + 1);
                    }
                    return Err(err);
                },
            }
        } else if is_plugin_file(e.name.as_str(), e.is_file, ext) {
            steps.push(ScanStep { name: e.name.clone(), build: None });
        }
        proof {
            if steps@.len() > before.len() {
                assert(steps@.map_values(|s: ScanStep| step_view(s)) =~= before.map_values(
                    |s: ScanStep| step_view(s),
                ).push(step_view(steps@.last())));
            }
        }
        i = i + 1;
    }
    proof {
        assert(entries@.take(i as int) =~= entries@);
    }
    Ok(steps)
}

/// The names of the plugin binaries among `files`, in order.
pub open spec fn plugin_names(files: Seq<FileEntry>, ext: Seq<char>) -> Seq<Seq<char>>
    decreases files.len(),
{
    if files.len() == 0 {
        Seq::empty()
    } else if files.last().is_file && has_extension(files.last().name@, ext) {
        plugin_names(files.drop_last(), ext).push(files.last().name@)
    } else {
        plugin_names(files.drop_last(), ext)
    }
}

/// The plugin binaries in a build output directory whose entries are
/// `files`.
pub fn plugin_files(files: &Vec<FileEntry>, ext: &str) -> (r: Vec<String>)
    ensures
        r@.map_values(|s: String| s@) == plugin_names(files@, ext@),
{
    let mut names: Vec<String> = Vec::new();
    let mut i: usize = 0;
    proof {
        assert(files@.take(0) =~= Seq::<FileEntry>::empty());
        assert(names@.map_values(|s: String| s@) =~= Seq::empty());
    }
    while i < files.len()
        invariant
            i <= files@.len(),
            names@.map_values(|s: String| s@) == plugin_names(files@.take(i as int), ext@),
        decreases files@.len() - i,
    {
        let f = &files[i];
        let ghost before = names@;
        proof {
            assert(files@.take(i + 1).drop_last() =~= files@.take(i as int));
            assert(files@.take(i + 1).last() == *f);
        }
        if is_plugin_file(f.name.as_str(), f.is_file, ext) {
            names.push(f.name.clone());
            proof {
                assert(names@.map_values(|s: String| s@) =~= before.map_values(|s: String| s@).push(f.name@));
            }
        }
        i = i + 1;
    }
    proof {
        assert(files@.take(i as int) =~= files@);
    }
    names
}

/// A loaded algorithm: its capability object together with the library
/// that holds its code. The object is declared first, so it is dropped
/// before the library is unmapped.
pub struct Algorithm<A> {
    name: String,
    path: String,
    algorithm: A,
    lib: libloading::Library,
}

impl<A> Algorithm<A> {
    pub closed spec fn spec_name(&self) -> Seq<char> {
        self.name@
    }

    pub closed spec fn spec_path(&self) -> Seq<char> {
        self.path@
    }

    pub closed spec fn spec_algorithm(&self) -> A {
        self.algorithm
    }

    pub closed spec fn spec_lib(&self) -> libloading::Library {
        self.lib
    }

    pub fn new(name: String, path: String, algorithm: A, lib: libloading::Library) -> (r: Self)
        ensures
            r.spec_name() == name@,
            r.spec_path() == path@,
            r.spec_algorithm() == algorithm,
            r.spec_lib() == lib,
    {
        Self { name, path, algorithm, lib }
    }

    pub fn name(&self) -> (r: &str)
        ensures
            r@ == self.spec_name(),
    {
        self.name.as_str()
    }

    pub fn path(&self) -> (r: &String)
        ensures
            r@ == self.spec_path(),
    {
        &self.path
    }

    /// The capability object.
    pub fn algorithm(&self) -> (r: &A)
        ensures
            *r == self.spec_algorithm(),
    {
        &self.algorithm
    }

    /// The capability object, for a lifecycle call.
    pub fn algorithm_mut(&mut self) -> (r: &mut A)
        ensures
            *r == old(self).spec_algorithm(),
            final(self).spec_algorithm() == *final(r),
            final(self).spec_name() == old(self).spec_name(),
            final(self).spec_path() == old(self).spec_path(),
            final(self).spec_lib() == old(self).spec_lib(),
    {
        &mut self.algorithm
    }

    /// `<name> (<path>)`.
    pub fn describe(&self) -> (r: String)
        ensures
            r@ == self.spec_name() + " ("@ + self.spec_path() + ")"@,
    {
        let mut r = String::from_str(self.name.as_str());
        r.append(" (");
        r.append(self.path.as_str());
        r.append(")");
        r
    }
}

/// The registry of loaded algorithms. Each algorithm is kept under the name
/// its plugin registered; no name occurs twice.
pub struct Algorithms<A> {
    names: Vec<String>,
    algorithms: Vec<Algorithm<A>>,
}

impl<A> Algorithms<A> {
    /// The names in the order they were loaded.
    pub closed spec fn keys(&self) -> Seq<Seq<char>> {
        self.names@.map_values(|n: String| n@)
    }

    /// The loaded algorithms, each at the position of its name in `keys`.
    pub closed spec fn values(&self) -> Seq<Algorithm<A>> {
        self.algorithms@
    }

    pub closed spec fn wf(&self) -> bool {
        &&& self.names@.len() == self.algorithms@.len()
        &&& forall|i: int, j: int|
            0 <= i < j < self.names@.len() ==> self.names@[i]@ != self.names@[j]@
        &&& forall|i: int| 0 <= i < self.names@.len() ==> #[trigger] self.algorithms@[i].spec_name() == self.names@[i]@
    }

    /// In a well-formed registry each name occurs once, and the algorithm at
    /// each position carries the name at that position.
    pub proof fn lemma_wf(&self)
        requires
            self.wf(),
        ensures
            self.keys().len() == self.values().len(),
            forall|i: int, j: int|
                0 <= i < self.keys().len() && 0 <= j < self.keys().len() && #[trigger] self.keys()[i]
                    == #[trigger] self.keys()[j] ==> i == j,
            forall|i: int| 0 <= i < self.keys().len() ==> #[trigger] self.values()[i].spec_name() == self.keys()[i],
    {
        self.lemma_keys();
        assert forall|i: int, j: int|
            0 <= i < self.keys().len() && 0 <= j < self.keys().len() && #[trigger] self.keys()[i]
                == #[trigger] self.keys()[j] implies i == j by {
            if i < j {
                assert(self.names@[i]@ != self.names@[j]@);
            } else if j < i {
                assert(self.names@[j]@ != self.names@[i]@);
            }
        }
    }

    /// Whether an algorithm is loaded under `name`.
    pub open spec fn has(&self, name: Seq<char>) -> bool {
        self.keys().contains(name)
    }

    /// A registry with nothing loaded.
    pub fn empty() -> (r: Self)
        ensures
            r.wf(),
            r.keys() == Seq::<Seq<char>>::empty(),
            r.values() == Seq::<Algorithm<A>>::empty(),
    {
        let r = Self { names: Vec::new(), algorithms: Vec::new() };
        assert(r.keys() =~= Seq::<Seq<char>>::empty());
        r
    }

    proof fn lemma_keys(&self)
        ensures
            self.keys().len() == self.names@.len(),
            forall|i: int| 0 <= i < self.names@.len() ==> #[trigger] self.keys()[i] == self.names@[i]@,
    {
    }

    /// The position of `name` among the keys, if it is there.
    fn position(&self, name: &str) -> (r: Option<usize>)
        requires
            self.wf(),
        ensures
            match r {
                Some(i) => i < self.keys().len() && self.keys()[i as int] == name@,
                None => !self.has(name@),
            },
    {
        proof {
            self.lemma_keys();
        }
        let mut i: usize = 0;
        while i < self.names.len()
            invariant
                i <= self.names@.len(),
                forall|k: int| 0 <= k < i ==> self.keys()[k] != name@,
            decreases self.names@.len() - i,
        {
            if same_text(self.names[i].as_str(), name) {
                return Some(i);
            }
            i = i + 1;
        }
        proof {
            if self.keys().contains(name@) {
                let k = choose|k: int| 0 <= k < self.keys().len() && self.keys()[k] == name@;
                assert(self.keys()[k] != name@);
            }
        }
        None
    }

    /// The algorithm loaded under `name`; none where nothing is.
    pub fn get(&self, name: &str) -> (r: Option<&Algorithm<A>>)
        requires
            self.wf(),
        ensures
            r is Some <==> self.has(name@),
            match r {
                Some(a) => {
                    &&& a.spec_name() == name@
                    &&& forall|i: int|
                        0 <= i < self.keys().len() && self.keys()[i] == name@ ==> *a == #[trigger] self.values()[i]
                },
                None => true,
            },
    {
        proof {
            self.lemma_wf();
        }
        match self.position(name) {
            Some(i) => Some(&self.algorithms[i]),
            None => None,
        }
    }

    /// The algorithm loaded under `name`, to drive it; none where nothing is.
    pub fn get_mut(&mut self, name: &str) -> (r: Option<&mut Algorithm<A>>)
        requires
            old(self).wf(),
        ensures
            r is Some <==> old(self).has(name@),
            final(self).keys() == old(self).keys(),
            match r {
                Some(a) => {
                    &&& a.spec_name() == name@
                    &&& final(self).wf() == (final(a).spec_name() == name@)
                    &&& exists|i: int|
                        0 <= i < old(self).keys().len() && old(self).keys()[i] == name@
                            && *a == old(self).values()[i]
                            && final(self).values() == old(self).values().update(i, *final(a))
                },
                None => final(self).wf() && final(self).values() == old(self).values(),
            },
    {
        proof {
            self.lemma_wf();
        }
        match self.position(name) {
            Some(i) => Some(&mut self.algorithms[i]),
            None => None,
        }
    }

    /// Whether an algorithm is loaded under `name`.
    pub fn contains(&self, name: &str) -> (r: bool)
        requires
            self.wf(),
        ensures
            r == self.has(name@),
    {
        self.position(name).is_some()
    }

    /// Loads a plugin whose binary the caller opened as `lib` at `path`, and
    /// whose registration record it read as `registration`.
    ///
    /// A plugin built with other versions than `host` is refused with
    /// `MisMatchedVersion`; one whose name is taken is refused with
    /// `LibLoading`. In both cases the registry is unchanged and `lib` is
    /// dropped here, once. Otherwise `factory` is called once and its object
    /// is bound to `lib` under the registered name.
    pub fn load<F: FnOnce() -> A>(
        &mut self,
        host: &AbiVersion,
        registration: AlgorithmRegistration,
        path: String,
        lib: libloading::Library,
        factory: F,
    ) -> (r: Result<(), Error>)
        requires
            old(self).wf(),
            call_requires(factory, ()),
        ensures
            final(self).wf(),
            r is Ok <==> versions_match(registration, *host) && !old(self).has(registration.name@),
            !versions_match(registration, *host) ==> fails_with(
                r,
                ErrorKind::MisMatchedVersion,
                mismatch_message(registration, *host),
            ),
            versions_match(registration, *host) && old(self).has(registration.name@) ==> fails_with(
                r,
                ErrorKind::LibLoading,
                duplicate_message(),
            ),
            r is Err ==> final(self).keys() == old(self).keys() && final(self).values() == old(self).values(),
            r is Ok ==> final(self).has(registration.name@),
            r is Ok ==> {
                &&& final(self).keys() == old(self).keys().push(registration.name@)
                &&& final(self).values().len() == old(self).values().len() + 1
                &&& final(self).values().drop_last() == old(self).values()
                &&& final(self).values().last().spec_name() == registration.name@
                &&& final(self).values().last().spec_path() == path@
                &&& final(self).values().last().spec_lib() == lib
                &&& call_ensures(factory, (), final(self).values().last().spec_algorithm())
            },
    {
        if !registration.matches(host) {
            return Err(registration.mismatch_error(host));
        }
        if self.contains(registration.name.as_str()) {
            return Err(Error::new(String::from_str("Algorithm already exists"), ErrorKind::LibLoading));
        }
        let state = factory();
        let name = registration.name;
        let key = name.clone();
        let algorithm = Algorithm::new(name, path, state, lib);
        proof {
            self.lemma_keys();
        }
        let ghost old_names = self.names@;
        self.names.push(key);
        self.algorithms.push(algorithm);
        proof {
            self.lemma_keys();
            assert(self.keys() =~= old(self).keys().push(registration.name@));
            assert(self.keys()[self.keys().len() - 1] == registration.name@);
            assert(self.values().drop_last() =~= old(self).values());
            assert forall|i: int, j: int| 0 <= i < j < self.names@.len() implies self.names@[i]@ != self.names@[j]@ by {
                if j == old_names.len() {
                    assert(old(self).keys()[i] == old_names[i]@);
                }
            }
        }
        Ok(())
    }

    /// `ALGORITHMS:` and a tab, then each algorithm on a line of its own.
    pub fn describe(&self) -> (r: String)
        requires
            self.wf(),
        ensures
            r@ == "ALGORITHMS:\t"@ + listing(self.values()),
    {
        let mut r = String::from_str("ALGORITHMS:\t");
        let mut i: usize = 0;
        while i < self.algorithms.len()
            invariant
                i <= self.algorithms@.len(),
                r@ == "ALGORITHMS:\t"@ + listing(self.values().take(i as int)),
            decreases self.algorithms@.len() - i,
        {
            let line = self.algorithms[i].describe();
            r.append("\n\t");
            r.append(line.as_str());
            proof {
                assert(self.values().take(i + 1).drop_last() =~= self.values().take(i as int));
            }
            i = i + 1;
        }
        proof {
            assert(self.values().take(i as int) =~= self.values());
        }
        r
    }
}

/// Each algorithm as `\n\t<name> (<path>)`, in order.
pub open spec fn listing<A>(s: Seq<Algorithm<A>>) -> Seq<char>
    decreases s.len(),
{
    if s.len() == 0 {
        Seq::empty()
    } else {
        listing(s.drop_last()) + "\n\t"@ + s.last().spec_name() + " ("@ + s.last().spec_path() + ")"@
    }
}

} // verus!
